//! Queries and commands sent to the host.
//!
//! Each of them runs the same course: refuse a context without a plugin or
//! without callbacks, put the command into the zero-terminated form the host
//! reads, make the call, and turn the status that comes back into a
//! `Result`. The call itself goes through the host's function pointers and is
//! handed in by the caller; everything around it is decided here.

use vstd::prelude::*;
use vstd::utf8::encode_utf8;

use crate::error::{spec_status_to_result, status_to_result, PluginError, Result};
use crate::ffi::{HRESULT, S_OK};
use crate::text::{from_c_string, is_text_of, to_c_string};

verus! {

/// Number of bytes the host is given to write a string reply into.
pub const STRING_REPLY_LEN: usize = 1024;

/// Plugin context that provides access to VirtualDJ API functions
///
/// It holds the addresses of the host's plugin object and of its callback
/// table. An address of zero is a null pointer.
pub struct PluginContext {
    plugin: usize,
    callbacks: usize,
}

/// A reply buffer as the host receives it: all zero.
pub open spec fn blank_reply() -> Seq<u8> {
    Seq::new(STRING_REPLY_LEN as nat, |i: int| 0u8)
}

/// Whether `r` is the outcome of a string query that the host answered with
/// status `hr`, leaving `output` in the reply buffer: on `S_OK` the text of
/// the zero-terminated string in the buffer, otherwise the error of the
/// status.
pub open spec fn is_string_reply(r: Result<String>, hr: HRESULT, output: Seq<u8>) -> bool {
    if hr == S_OK {
        r matches Ok(text) && is_text_of(text@, output)
    } else {
        r matches Err(e) && e == PluginError::of_status(hr)
    }
}

impl PluginContext {
    /// Address of the host's plugin object.
    pub closed spec fn spec_plugin(&self) -> usize {
        self.plugin
    }

    /// Address of the host's callback table.
    pub closed spec fn spec_callbacks(&self) -> usize {
        self.callbacks
    }

    /// Whether the plugin or the callback table is missing.
    pub open spec fn spec_is_null(&self) -> bool {
        self.spec_plugin() == 0 || self.spec_callbacks() == 0
    }

    /// What is sent to the host for `command`: nothing without a plugin or
    /// callbacks, nothing for a command that holds the character U+0000,
    /// else the command's UTF-8 bytes and a closing zero.
    pub open spec fn request(&self, command: Seq<char>) -> Result<Seq<u8>> {
        if self.spec_is_null() {
            Err(PluginError::NullPointer)
        } else if command.contains('\0') {
            Err(PluginError::Fail)
        } else {
            Ok(encode_utf8(command).push(0u8))
        }
    }

    /// Create a new plugin context
    ///
    /// # Arguments
    /// * `plugin` - Address of the host's plugin object
    /// * `callbacks` - Address of the host's callback table
    pub fn new(plugin: usize, callbacks: usize) -> (context: Self)
        ensures
            context.spec_plugin() == plugin,
            context.spec_callbacks() == callbacks,
    {
        PluginContext { plugin, callbacks }
    }

    /// Address of the host's plugin object.
    #[verifier::when_used_as_spec(spec_plugin)]
    pub fn plugin(&self) -> (address: usize)
        ensures
            address == self.spec_plugin(),
    {
        self.plugin
    }

    /// Address of the host's callback table.
    #[verifier::when_used_as_spec(spec_callbacks)]
    pub fn callbacks(&self) -> (address: usize)
        ensures
            address == self.spec_callbacks(),
    {
        self.callbacks
    }

    /// Whether the plugin or the callback table is missing, so that no call
    /// can be made.
    #[verifier::when_used_as_spec(spec_is_null)]
    pub fn is_null(&self) -> (missing: bool)
        ensures
            missing == self.spec_is_null(),
    {
        self.plugin == 0 || self.callbacks == 0
    }

    /// The bytes to hand to the host for `command`.
    ///
    /// Fails with `NullPointer` if the plugin or the callbacks are missing,
    /// and if not, with `Fail` if the command holds the character U+0000.
    pub fn command_bytes(&self, command: &str) -> (r: Result<Vec<u8>>)
        ensures
            match r {
                Ok(bytes) => self.request(command@) == Ok::<Seq<u8>, PluginError>(bytes@),
                Err(e) => self.request(command@) == Err::<Seq<u8>, PluginError>(e),
            },
    {
        if self.is_null() {
            return Err(PluginError::NullPointer);
        }
        match to_c_string(command) {
            Some(bytes) => Ok(bytes),
            None => Err(PluginError::Fail),
        }
    }

    /// The outcome of a string query, from the status the host returned and
    /// the reply buffer as the host left it.
    pub fn string_reply(hr: HRESULT, output: &[u8]) -> (r: Result<String>)
        ensures
            is_string_reply(r, hr, output@),
    {
        if hr == S_OK {
            Ok(from_c_string(output))
        } else {
            Err(PluginError::from(hr))
        }
    }

    /// Send a command to VirtualDJ
    ///
    /// # Arguments
    /// * `command` - The VDJ script command (e.g., "deck 1 play")
    /// * `send` - The host's `send_command` callback, given the
    ///   zero-terminated command
    ///
    /// # Returns
    /// Ok(()) if successful, or an error if the command fails. The host is
    /// called with the bytes of `request`, if there are any, and the result
    /// is then what its status amounts to.
    pub fn send_command<F>(&self, command: &str, send: F) -> (r: Result<()>) where
        F: FnOnce(&[u8]) -> HRESULT,

        requires
            forall|c: &[u8]|
                self.request(command@) == Ok::<Seq<u8>, PluginError>(c@)
                    ==> call_requires(send, (c,)),
        ensures
            match self.request(command@) {
                Err(e) => r == Err::<(), PluginError>(e),
                Ok(bytes) => exists|c: &[u8], hr: HRESULT|
                    c@ == bytes && #[trigger] call_ensures(send, (c,), hr)
                        && r == spec_status_to_result(hr, ()),
            },
    {
        let c_command = self.command_bytes(command)?;
        let c = c_command.as_slice();
        let hr = send(c);
        assert(call_ensures(send, (c,), hr));
        status_to_result(hr, ())
    }

    /// Query VirtualDJ for a double/numeric value
    ///
    /// # Arguments
    /// * `command` - The VDJ script command (e.g., "deck 1 get_position")
    /// * `query` - The host's `get_info` callback, given the zero-terminated
    ///   command; it returns its status and the bits of the double it wrote
    ///
    /// # Returns
    /// A Result containing the bits of the numeric value, or an error if the
    /// command fails
    pub fn get_info_double<F>(&self, command: &str, query: F) -> (r: Result<u64>) where
        F: FnOnce(&[u8]) -> (HRESULT, u64),

        requires
            forall|c: &[u8]|
                self.request(command@) == Ok::<Seq<u8>, PluginError>(c@)
                    ==> call_requires(query, (c,)),
        ensures
            match self.request(command@) {
                Err(e) => r == Err::<u64, PluginError>(e),
                Ok(bytes) => exists|c: &[u8], hr: HRESULT, bits: u64|
                    c@ == bytes && #[trigger] call_ensures(query, (c,), (hr, bits))
                        && r == spec_status_to_result(hr, bits),
            },
    {
        let c_command = self.command_bytes(command)?;
        let c = c_command.as_slice();
        let (hr, bits) = query(c);
        assert(call_ensures(query, (c,), (hr, bits)));
        status_to_result(hr, bits)
    }

    /// Query VirtualDJ for a string value
    ///
    /// # Arguments
    /// * `command` - The VDJ script command (e.g., "deck 1 get_title")
    /// * `query` - The host's `get_string_info` callback, given the
    ///   zero-terminated command and a reply buffer filled with zeros; it
    ///   returns its status and the buffer
    ///
    /// # Returns
    /// A Result containing the string value, or an error if the command fails
    pub fn get_info_string<F>(&self, command: &str, query: F) -> (r: Result<String>) where
        F: FnOnce(&[u8], [u8; STRING_REPLY_LEN]) -> (HRESULT, [u8; STRING_REPLY_LEN]),

        requires
            forall|c: &[u8], blank: [u8; STRING_REPLY_LEN]|
                self.request(command@) == Ok::<Seq<u8>, PluginError>(c@)
                    && blank@ == blank_reply() ==> call_requires(query, (c, blank)),
        ensures
            match self.request(command@) {
                Err(e) => r matches Err(e2) && e2 == e,
                Ok(bytes) => exists|
                    c: &[u8],
                    blank: [u8; STRING_REPLY_LEN],
                    hr: HRESULT,
                    output: [u8; STRING_REPLY_LEN],
                |
                    c@ == bytes && blank@ == blank_reply()
                        && #[trigger] call_ensures(query, (c, blank), (hr, output))
                        && is_string_reply(r, hr, output@),
            },
    {
        let c_command = self.command_bytes(command)?;
        let blank: [u8; STRING_REPLY_LEN] = [0u8; STRING_REPLY_LEN];
        assert(blank@ =~= blank_reply());
        let c = c_command.as_slice();
        let (hr, output) = query(c, blank);
        assert(call_ensures(query, (c, blank), (hr, output)));
        Self::string_reply(hr, output.as_slice())
    }
}

} // verus!
