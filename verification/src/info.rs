//! What a plugin tells the host about itself.

use vstd::prelude::*;

use crate::error::Result;
use crate::ffi::VdjPluginInfo;
use crate::text::{from_c_string, is_text_of};

verus! {

/// Plugin information
#[derive(Debug, Clone)]
pub struct PluginInfo {
    pub name: String,
    pub author: String,
    pub description: String,
    pub version: String,
    pub flags: u32,
}

impl PluginInfo {
    /// Whether `self` is what the host's record `ffi_info` says: each text
    /// is the record's zero-terminated string read as UTF-8, with invalid
    /// sequences replaced, and the flags are the record's.
    pub open spec fn reads(self, ffi_info: VdjPluginInfo) -> bool {
        &&& is_text_of(self.name@, ffi_info.plugin_name@)
        &&& is_text_of(self.author@, ffi_info.author@)
        &&& is_text_of(self.description@, ffi_info.description@)
        &&& is_text_of(self.version@, ffi_info.version@)
        &&& self.flags == ffi_info.flags
    }

    /// Reads the host's record into owned strings. This never fails.
    pub fn from_ffi(ffi_info: &VdjPluginInfo) -> (r: Result<PluginInfo>)
        ensures
            r matches Ok(info) && info.reads(*ffi_info),
    {
        let name = from_c_string(ffi_info.plugin_name.as_slice());
        let author = from_c_string(ffi_info.author.as_slice());
        let description = from_c_string(ffi_info.description.as_slice());
        let version = from_c_string(ffi_info.version.as_slice());

        Ok(PluginInfo { name, author, description, version, flags: ffi_info.flags })
    }
}

} // verus!
