//! The plugin trait and the plugin-info record.

use virtualdj_plugin_sdk::ffi::VdjPluginInfo;
use virtualdj_plugin_sdk::plugin::{
    DEFAULT_SAMPLE_RATE, DEFAULT_SONG_BPM, DEFAULT_VIDEO_HEIGHT, DEFAULT_VIDEO_WIDTH,
};
use virtualdj_plugin_sdk::{PluginBase, PluginError, PluginInfo, Result};

struct Bare {
    loads: u32,
}

impl PluginBase for Bare {}

struct Gain {
    loads: u32,
    last_parameter: i32,
}

impl PluginBase for Gain {
    fn on_load(&mut self) -> Result<()> {
        self.loads += 1;
        Ok(())
    }

    fn get_info(&self) -> PluginInfo {
        PluginInfo {
            name: "Simple Gain".to_string(),
            author: "Your Name".to_string(),
            description: "A simple volume gain effect".to_string(),
            version: "1.0.0".to_string(),
            flags: 0x2,
        }
    }

    fn on_parameter(&mut self, id: i32) -> Result<()> {
        if id < 0 {
            return Err(PluginError::Fail);
        }
        self.last_parameter = id;
        Ok(())
    }

    fn on_get_parameter_string(&self, id: i32) -> Result<String> {
        Ok(format!("parameter {}", id))
    }
}

#[test]
fn a_bare_plugin_has_the_default_description() {
    let info = Bare { loads: 0 }.get_info();
    assert_eq!(info.name, "VirtualDJ Plugin");
    assert_eq!(info.author, "Plugin Developer");
    assert_eq!(info.description, "A VirtualDJ plugin");
    assert_eq!(info.version, "1.0.0");
    assert_eq!(info.flags, 0);
}

#[test]
fn a_bare_plugin_loads_and_takes_parameters() {
    let mut plugin = Bare { loads: 7 };
    assert_eq!(plugin.on_load(), Ok(()));
    assert_eq!(plugin.on_parameter(3), Ok(()));
    assert_eq!(plugin.on_parameter(-1), Ok(()));
    assert_eq!(plugin.loads, 7);
}

#[test]
fn a_bare_plugin_has_no_parameter_strings() {
    let plugin = Bare { loads: 0 };
    assert_eq!(plugin.on_get_parameter_string(0), Err(PluginError::NotImplemented));
    assert_eq!(plugin.on_get_parameter_string(12), Err(PluginError::NotImplemented));
}

#[test]
fn a_plugin_may_answer_for_itself() {
    let mut plugin = Gain { loads: 0, last_parameter: -1 };
    assert_eq!(plugin.on_load(), Ok(()));
    assert_eq!(plugin.loads, 1);
    assert_eq!(plugin.on_parameter(4), Ok(()));
    assert_eq!(plugin.last_parameter, 4);
    assert_eq!(plugin.on_parameter(-4), Err(PluginError::Fail));
    assert_eq!(plugin.on_get_parameter_string(4), Ok("parameter 4".to_string()));
    assert_eq!(plugin.get_info().name, "Simple Gain");
    assert_eq!(plugin.get_info().flags, 0x2);
}

#[test]
fn defaults_are_cd_audio_and_full_hd() {
    assert_eq!(DEFAULT_SAMPLE_RATE, 44100);
    assert_eq!(DEFAULT_SONG_BPM, 120);
    assert_eq!(DEFAULT_VIDEO_WIDTH, 1920);
    assert_eq!(DEFAULT_VIDEO_HEIGHT, 1080);
}

#[test]
fn plugin_info_is_read_from_the_host_record() {
    let record = VdjPluginInfo {
        plugin_name: b"Echo\0".to_vec(),
        author: b"A. Author\0junk".to_vec(),
        description: b"Repeats the signal\0".to_vec(),
        version: b"2.1\0".to_vec(),
        bitmap: 0,
        flags: 0x82,
    };
    let info = PluginInfo::from_ffi(&record).unwrap();
    assert_eq!(info.name, "Echo");
    assert_eq!(info.author, "A. Author");
    assert_eq!(info.description, "Repeats the signal");
    assert_eq!(info.version, "2.1");
    assert_eq!(info.flags, 0x82);
}

#[test]
fn plugin_info_reads_empty_and_broken_strings() {
    let record = VdjPluginInfo {
        plugin_name: Vec::new(),
        author: vec![0],
        description: vec![0x41, 0xFF, 0],
        version: vec![0xC3, 0xA9],
        bitmap: 0x5000,
        flags: u32::MAX,
    };
    let info = PluginInfo::from_ffi(&record).unwrap();
    assert_eq!(info.name, "");
    assert_eq!(info.author, "");
    assert_eq!(info.description, "A\u{FFFD}");
    assert_eq!(info.version, "é");
    assert_eq!(info.flags, u32::MAX);
}

#[test]
fn plugin_info_can_be_cloned() {
    let info = PluginInfo {
        name: "Echo".to_string(),
        author: "A. Author".to_string(),
        description: "Repeats the signal".to_string(),
        version: "2.1".to_string(),
        flags: 1,
    };
    let copy = info.clone();
    assert_eq!(copy.name, info.name);
    assert_eq!(copy.author, info.author);
    assert_eq!(copy.description, info.description);
    assert_eq!(copy.version, info.version);
    assert_eq!(copy.flags, info.flags);
}
