//! Windows definitions, held as plain values.
//!
//! Handles are kept by their address and GUIDs field by field, so that they
//! can be compared, stored and handed on without touching the memory they
//! name.

use vstd::prelude::*;

verus! {

/// A native result code: zero is success, every other value names a failure.
pub type HResult = i32;

/// One byte of guest or device memory.
pub type Byte = u8;

/// A 32-bit unsigned value of the native interface.
pub type DWord = u32;

/// An opaque native handle, held by its address.
#[derive(Debug, Clone, Copy, PartialEq, Eq, Hash, Structural)]
pub struct Handle {
    pub address: usize,
}

impl Handle {
    /// Whether this is the null handle, the sentinel for "no handle".
    pub open spec fn is_null_spec(&self) -> bool {
        self.address == 0
    }

    /// The null handle.
    pub fn null() -> (handle: Handle)
        ensures
            handle.is_null_spec(),
            handle == (Handle { address: 0 }),
    {
        Handle { address: 0 }
    }

    /// Whether this is the null handle.
    pub fn is_null(&self) -> (null: bool)
        ensures
            null == self.is_null_spec(),
    {
        self.address == 0
    }
}

/// A globally unique identifier, field by field.
#[derive(Debug, Clone, Copy, PartialEq, Eq, Hash)]
pub struct Guid {
    pub data1: u32,
    pub data2: u16,
    pub data3: u16,
    pub data4: [u8; 8],
}

impl Guid {
    /// Whether every field of the GUID is zero.
    pub open spec fn is_null_spec(&self) -> bool {
        &&& self.data1 == 0
        &&& self.data2 == 0
        &&& self.data3 == 0
        &&& forall|i: int| 0 <= i < 8 ==> self.data4[i] == 0
    }

    /// The all-zero GUID.
    pub fn null() -> (guid: Guid)
        ensures
            guid.is_null_spec(),
    {
        Guid { data1: 0, data2: 0, data3: 0, data4: [0u8; 8] }
    }
}

} // verus!
