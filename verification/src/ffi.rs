//! The host's binary interface as plain values: status codes, parameter
//! kinds, plugin flags, video engines, handle types and the plugin-info
//! record.
//!
//! The host defines every number here; none of them is this SDK's to choose.

#![allow(non_camel_case_types)]

use vstd::prelude::*;

verus! {

/// Status code that every host callback returns.
pub type HRESULT = i32;

pub type DWORD = u32;

pub type ULONG = u32;

/// The call succeeded.
pub const S_OK: HRESULT = 0;

/// The call succeeded with a negative answer.
pub const S_FALSE: HRESULT = 1;

/// The call is not implemented (`0x80004001` read as a signed word).
pub const E_NOTIMPL: HRESULT = -2147467263;

/// The call failed (`0x80004005` read as a signed word).
pub const E_FAIL: HRESULT = -2147467259;

/* Plugin parameter types */

pub const VDJPARAM_BUTTON: i32 = 0;

pub const VDJPARAM_SLIDER: i32 = 1;

pub const VDJPARAM_SWITCH: i32 = 2;

pub const VDJPARAM_STRING: i32 = 3;

pub const VDJPARAM_CUSTOM: i32 = 4;

pub const VDJPARAM_RADIO: i32 = 5;

pub const VDJPARAM_COMMAND: i32 = 6;

pub const VDJPARAM_COLORFX: i32 = 7;

pub const VDJPARAM_BEATS: i32 = 8;

pub const VDJPARAM_BEATS_RELATIVE: i32 = 9;

pub const VDJPARAM_POSITION: i32 = 10;

pub const VDJPARAM_RELEASEFX: i32 = 11;

pub const VDJPARAM_TRANSITIONFX: i32 = 12;

/* Plugin flags */

pub const VDJFLAG_NODOCK: DWORD = 0x1;

pub const VDJFLAG_PROCESSAFTERSTOP: DWORD = 0x2;

pub const VDJFLAG_PROCESSFIRST: DWORD = 0x4;

pub const VDJFLAG_PROCESSLAST: DWORD = 0x8;

pub const VDJFLAG_EXTENSION1: DWORD = 0x10;

pub const VDJFLAG_SETPREVIEW: DWORD = 0x20;

pub const VDJFLAG_POSITION_NOSLIP: DWORD = 0x40;

pub const VDJFLAG_ALWAYSPREFADER: DWORD = 0x80;

pub const VDJFLAG_ALWAYSPOSTFADER: DWORD = 0x100;

pub const VDJFLAG_EPHEMERAL: DWORD = 0x200;

/* Video-specific flags */

pub const VDJFLAG_VIDEO_MASTERONLY: DWORD = 0x10000;

pub const VDJFLAG_VIDEO_VISUALISATION: DWORD = 0x20000;

pub const VDJFLAG_VIDEO_OVERLAY: DWORD = 0x40000;

pub const VDJFLAG_VIDEO_HASRESIZE: DWORD = 0x80000;

pub const VDJFLAG_VIDEO_NOAUTOACTIVE: DWORD = 0x200000;

pub const VDJFLAG_VIDEO_OUTPUTRESOLUTION: DWORD = 0x400000;

pub const VDJFLAG_VIDEO_OUTPUTASPECTRATIO: DWORD = 0x800000;

pub const VDJFLAG_VIDEO_FORRECORDING: DWORD = 0x1000000;

pub const VDJFLAG_VIDEOTRANSITION_CONTINOUS: DWORD = 0x100000;

/// Video engines, in the order of the numbers the host gives them.
#[derive(Clone, Copy, Debug)]
pub enum EVdjVideoEngine {
    VdjVideoEngineAny,
    VdjVideoEngineDirectX9,
    VdjVideoEngineOpenGL,
    VdjVideoEngineDirectX11,
    VdjVideoEngineOpenGLES2,
    VdjVideoEngineMetal,
    VdjVideoEngineAnyPtr,
}

impl EVdjVideoEngine {
    /// The number by which the host knows the engine.
    pub open spec fn spec_code(self) -> i32 {
        match self {
            EVdjVideoEngine::VdjVideoEngineAny => 0,
            EVdjVideoEngine::VdjVideoEngineDirectX9 => 1,
            EVdjVideoEngine::VdjVideoEngineOpenGL => 2,
            EVdjVideoEngine::VdjVideoEngineDirectX11 => 3,
            EVdjVideoEngine::VdjVideoEngineOpenGLES2 => 4,
            EVdjVideoEngine::VdjVideoEngineMetal => 5,
            EVdjVideoEngine::VdjVideoEngineAnyPtr => 6,
        }
    }

    /// The number by which the host knows the engine.
    #[verifier::when_used_as_spec(spec_code)]
    pub fn code(self) -> (n: i32)
        ensures
            n == self.spec_code(),
            0 <= n <= 6,
    {
        match self {
            EVdjVideoEngine::VdjVideoEngineAny => 0,
            EVdjVideoEngine::VdjVideoEngineDirectX9 => 1,
            EVdjVideoEngine::VdjVideoEngineOpenGL => 2,
            EVdjVideoEngine::VdjVideoEngineDirectX11 => 3,
            EVdjVideoEngine::VdjVideoEngineOpenGLES2 => 4,
            EVdjVideoEngine::VdjVideoEngineMetal => 5,
            EVdjVideoEngine::VdjVideoEngineAnyPtr => 6,
        }
    }
}

/* Opaque plugin handles: the host owns what is behind them, and a plugin
   only ever holds their addresses. */

pub struct VdjPlugin {
    _priv: [u8; 0],
}

pub struct VdjPluginDsp {
    _priv: [u8; 0],
}

pub struct VdjPluginBufferDsp {
    _priv: [u8; 0],
}

pub struct VdjPluginPositionDsp {
    _priv: [u8; 0],
}

pub struct VdjPluginVideoFx {
    _priv: [u8; 0],
}

pub struct VdjPluginVideoTransition {
    _priv: [u8; 0],
}

pub struct VdjPluginVideoTransitionMultiDeck {
    _priv: [u8; 0],
}

pub struct VdjPluginOnlineSource {
    _priv: [u8; 0],
}

/// The host's plugin-info record, with each string held as the bytes found
/// at its address. A string ends at its first zero byte.
pub struct VdjPluginInfo {
    pub plugin_name: Vec<u8>,
    pub author: Vec<u8>,
    pub description: Vec<u8>,
    pub version: Vec<u8>,
    /// Address of the plugin's bitmap; zero if it has none.
    pub bitmap: usize,
    pub flags: DWORD,
}

} // verus!
