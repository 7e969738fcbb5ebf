//! Verified core of a plugin SDK for the VirtualDJ host.
//!
//! The host loads a plugin, hands it a handle and a table of callbacks, and
//! answers script commands through them. This crate holds everything about
//! that exchange that is a matter of plain values: how a command becomes the
//! zero-terminated bytes the host reads, how a status code and a reply buffer
//! become a `Result`, and the capability traits a plugin implements. The call
//! through the host's function pointers itself is supplied by the caller.

pub mod context;
pub mod error;
pub mod ffi;
pub mod info;
pub mod plugin;
pub mod text;

pub use context::PluginContext;
pub use error::PluginError;
pub use error::Result;
pub use info::PluginInfo;
pub use plugin::PluginBase;
