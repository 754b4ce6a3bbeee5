//! Types shared by every Host Compute Service call.

pub mod defs;
pub mod errorcodes;
