//! The error type of the SDK and its relation to the host's status codes.

use vstd::prelude::*;
use vstd::std_specs::convert::FromSpecImpl;

use crate::ffi::{E_NOTIMPL, HRESULT, S_OK};

verus! {

/// Outcome of a host call, as the SDK reports it.
#[derive(Debug, Clone, Copy, PartialEq, Eq, Structural)]
pub enum PluginError {
    /// Operation succeeded
    Success,
    /// General failure
    Fail,
    /// Not implemented
    NotImplemented,
    /// Null pointer error
    NullPointer,
}

/// Result type for plugin operations
pub type Result<T> = std::result::Result<T, PluginError>;

impl PluginError {
    /// The error that stands for a status code: `S_OK` is success,
    /// `E_NOTIMPL` is "not implemented", every other code is a failure.
    pub open spec fn of_status(hr: HRESULT) -> PluginError {
        if hr == S_OK {
            PluginError::Success
        } else if hr == E_NOTIMPL {
            PluginError::NotImplemented
        } else {
            PluginError::Fail
        }
    }

    /// The text shown for each error.
    pub open spec fn spec_message(self) -> Seq<char> {
        match self {
            PluginError::Success => "Success"@,
            PluginError::Fail => "General failure"@,
            PluginError::NotImplemented => "Not implemented"@,
            PluginError::NullPointer => "Null pointer"@,
        }
    }

    /// A short description of the error, fit to show to a user.
    pub fn message(&self) -> (text: &'static str)
        ensures
            text@ == self.spec_message(),
    {
        match self {
            PluginError::Success => "Success",
            PluginError::Fail => "General failure",
            PluginError::NotImplemented => "Not implemented",
            PluginError::NullPointer => "Null pointer",
        }
    }
}

impl From<HRESULT> for PluginError {
    fn from(hr: HRESULT) -> (e: PluginError) {
        if hr == S_OK {
            PluginError::Success
        } else if hr == E_NOTIMPL {
            PluginError::NotImplemented
        } else {
            PluginError::Fail
        }
    }
}

impl FromSpecImpl<HRESULT> for PluginError {
    open spec fn obeys_from_spec() -> bool {
        true
    }

    open spec fn from_spec(hr: HRESULT) -> PluginError {
        PluginError::of_status(hr)
    }
}

/// What a host call amounts to, given the status it returned and the value
/// it produced: the value on `S_OK`, the error of the status otherwise.
pub open spec fn spec_status_to_result<T>(hr: HRESULT, value: T) -> Result<T> {
    if hr == S_OK {
        Ok(value)
    } else {
        Err(PluginError::of_status(hr))
    }
}

/// Turns the status of a host call and the value it produced into a result.
/// The value is kept only when the status is `S_OK`; a failed call never
/// reports `PluginError::Success`.
pub fn status_to_result<T>(hr: HRESULT, value: T) -> (r: Result<T>)
    ensures
        r == spec_status_to_result(hr, value),
        r is Ok <==> hr == S_OK,
        r matches Err(e) ==> e != PluginError::Success,
{
    if hr == S_OK {
        Ok(value)
    } else {
        Err(PluginError::from(hr))
    }
}

} // verus!
