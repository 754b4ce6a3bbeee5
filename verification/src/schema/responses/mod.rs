//! Documents returned by the Host Compute Service.

pub mod system;
