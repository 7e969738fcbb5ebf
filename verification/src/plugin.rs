//! The capability trait that every plugin implements.
//!
//! Each method has a body that a plugin may keep: it does nothing and
//! reports success, or says that nothing is implemented. What a kept body
//! returns is stated with it; a plugin that writes its own is bound by none
//! of it.

use vstd::prelude::*;

use crate::error::{PluginError, Result};
use crate::info::PluginInfo;

verus! {

/// Sample rate a plugin reports unless it knows better, in Hz.
pub const DEFAULT_SAMPLE_RATE: i32 = 44100;

/// Tempo a plugin reports unless it knows better, in beats per minute.
pub const DEFAULT_SONG_BPM: i32 = 120;

/// Video width a plugin reports unless it knows better, in pixels.
pub const DEFAULT_VIDEO_WIDTH: i32 = 1920;

/// Video height a plugin reports unless it knows better, in pixels.
pub const DEFAULT_VIDEO_HEIGHT: i32 = 1080;

/// Whether `info` is the description of a plugin that has not described
/// itself.
pub open spec fn is_default_info(info: PluginInfo) -> bool {
    &&& info.name@ == "VirtualDJ Plugin"@
    &&& info.author@ == "Plugin Developer"@
    &&& info.description@ == "A VirtualDJ plugin"@
    &&& info.version@ == "1.0.0"@
    &&& info.flags == 0
}

/// Base plugin trait that all plugin types implement
pub trait PluginBase {
    /// Called when the plugin is loaded
    fn on_load(&mut self) -> (r: Result<()>)
        default_ensures
            r == Ok::<(), PluginError>(()),
            &*final(self) == &*old(self),
    {
        Ok(())
    }

    /// Get plugin information
    fn get_info(&self) -> (info: PluginInfo)
        default_ensures
            is_default_info(info),
    {
        PluginInfo {
            name: "VirtualDJ Plugin".to_string(),
            author: "Plugin Developer".to_string(),
            description: "A VirtualDJ plugin".to_string(),
            version: "1.0.0".to_string(),
            flags: 0,
        }
    }

    /// Called when a parameter is changed
    #[allow(unused_variables)]
    fn on_parameter(&mut self, id: i32) -> (r: Result<()>)
        default_ensures
            r == Ok::<(), PluginError>(()),
            &*final(self) == &*old(self),
    {
        Ok(())
    }

    /// Get string representation of a parameter
    #[allow(unused_variables)]
    fn on_get_parameter_string(&self, id: i32) -> (r: Result<String>)
        default_ensures
            r matches Err(e) && e == PluginError::NotImplemented,
    {
        Err(PluginError::NotImplemented)
    }
}

} // verus!
