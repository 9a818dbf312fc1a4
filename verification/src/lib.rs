//! A command-line pastebin client library: several remote paste protocols
//! behind one capability surface, a layered configuration with sentinel
//! overrides, and a fail-closed codec for the persisted configuration.
//!
//! Each backend shapes its own request and owns its own success predicate;
//! the transports that carry the requests live outside this crate.

pub mod bpaste;
pub mod codec;
pub mod config;
pub mod fiche;
pub mod flags;
pub mod generic;
pub mod haste;
pub mod overrides;
pub mod registry;
pub mod types;
pub mod urls;
pub mod vpaste;
