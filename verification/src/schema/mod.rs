//! Data shapes of the JSON documents exchanged with the Host Compute Service.

pub mod json;
pub mod requests;
pub mod responses;
pub mod utils;
pub mod virtual_machines;

use vstd::prelude::*;

verus! {

/// A schema version: `major.minor` stands for every version with the same
/// major number and a minor number that is no greater.
#[derive(Debug, Clone, PartialEq, Eq, Structural)]
pub struct Version {
    pub major: u32,
    pub minor: u32,
}

impl Default for Version {
    fn default() -> (r: Self)
        ensures
            r == (Version { major: 0, minor: 0 }),
    {
        Version { major: 0, minor: 0 }
    }
}

} // verus!
