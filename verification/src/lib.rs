//! Safe building blocks for driving the Host Compute Service and its
//! device-virtualization host.
//!
//! The heart of the crate is the PCI device adapter in
//! [`hypervdevicevirtualization::utilities`]: it owns an embedder-supplied
//! device implementation together with the handle the native host issued for
//! it, and forwards every native callback to that implementation.  Calls into
//! the native host are described as plain request values and their result codes
//! are turned into `HcsResult`s, so that every decision the adapter takes is
//! stated in a contract and proved.

pub mod compute;
pub mod hypervdevicevirtualization;
pub mod schema;
pub mod windefs;

use vstd::prelude::*;

verus! {

/// What a call into the Host Compute Service gives back: its value, or the
/// failure the native host reported.
pub type HcsResult<T> = Result<T, compute::errorcodes::ResultCode>;

} // verus!
