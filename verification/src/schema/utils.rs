//! Helpers shared by the schema documents.

use crate::windefs::Guid;
use vstd::prelude::*;

verus! {

/// A GUID as it appears in a schema document.
#[derive(Debug, Clone, PartialEq)]
pub struct GuidSerde {
    pub guid: Guid,
}

impl GuidSerde {
    /// The GUID is the all-zero GUID.
    pub open spec fn is_default_spec(&self) -> bool {
        self.guid.is_null_spec()
    }
}

impl Default for GuidSerde {
    /// The all-zero GUID.
    fn default() -> (r: Self)
        ensures
            r.is_default_spec(),
    {
        GuidSerde { guid: Guid::null() }
    }
}

/// A point in time in UTC, as a document states it: the whole seconds since
/// 1970-01-01T00:00:00Z, and the nanoseconds into that second.
#[derive(Debug, Clone, Copy, PartialEq, Eq, Structural)]
pub struct DateTimeUtc {
    pub seconds: i64,
    pub nanoseconds: u32,
}

} // verus!
