//! Documents sent to the Host Compute Service.

use vstd::prelude::*;

verus! {

/// What a modification request does with the resource it names.
#[derive(Debug, Clone, PartialEq, Eq, Structural)]
pub enum ModifyRequestType {
    Add,
    Remove,
    Update,
}

impl Default for ModifyRequestType {
    /// A request adds its resource unless it says otherwise.
    fn default() -> (r: Self)
        ensures
            r == ModifyRequestType::Add,
    {
        ModifyRequestType::Add
    }
}

} // verus!
