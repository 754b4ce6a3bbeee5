//! Fixed-size plain values and the bytes that stand for them in guest memory.
//!
//! An integer is written least significant byte first.  The native host runs
//! on little-endian machines only, so these are the bytes of the value as
//! they lie in the memory of the host.

use crate::windefs::Byte;
use vstd::prelude::*;

verus! {

/// The first `size` bytes of `value`, least significant byte first.
pub open spec fn le_bytes(value: nat, size: nat) -> Seq<Byte>
    decreases size,
{
    if size == 0 {
        Seq::empty()
    } else {
        seq![(value % 256) as Byte] + le_bytes(value / 256, (size - 1) as nat)
    }
}

/// `le_bytes(value, size)` has `size` bytes.
pub proof fn lemma_le_bytes_len(value: nat, size: nat)
    ensures
        le_bytes(value, size).len() == size,
    decreases size,
{
    if size > 0 {
        lemma_le_bytes_len(value / 256, (size - 1) as nat);
    }
}

/// The `size` low bytes of `value`, least significant byte first.
pub fn le_bytes_of(value: u64, size: usize) -> (bytes: Vec<Byte>)
    ensures
        bytes@ == le_bytes(value as nat, size as nat),
        bytes@.len() == size,
{
    let mut bytes: Vec<Byte> = Vec::new();
    let mut rest: u64 = value;
    let mut i: usize = 0;
    while i < size
        invariant
            i <= size,
            bytes@.len() == i,
            le_bytes(value as nat, size as nat) == bytes@ + le_bytes(
                rest as nat,
                (size - i) as nat,
            ),
        decreases size - i,
    {
        let low: Byte = (rest % 256) as Byte;
        bytes.push(low);
        rest = rest / 256;
        i = i + 1;
    }
    bytes
}

/// A fixed-size value without internal structure: its meaning is its bytes,
/// so it can be copied into guest memory verbatim.
pub trait GuestValue {
    /// The number of bytes that every value of the type takes.
    spec fn size() -> nat;

    /// The bytes that stand for the value in guest memory.
    spec fn raw_bytes(&self) -> Seq<Byte>;

    /// Every value of the type has `size()` raw bytes.
    proof fn lemma_fixed_size(&self)
        ensures
            self.raw_bytes().len() == Self::size(),
    ;

    /// The bytes that stand for the value in guest memory.
    fn to_raw_bytes(&self) -> (bytes: Vec<Byte>)
        ensures
            bytes@ == self.raw_bytes(),
    ;
}

/// A `u8` is its 1 byte, least significant first.
impl GuestValue for u8 {
    open spec fn size() -> nat {
        1
    }

    open spec fn raw_bytes(&self) -> Seq<Byte> {
        le_bytes(*self as nat, 1)
    }

    proof fn lemma_fixed_size(&self) {
        lemma_le_bytes_len(*self as nat, 1);
    }

    fn to_raw_bytes(&self) -> (bytes: Vec<Byte>) {
        le_bytes_of(*self as u64, 1)
    }
}

/// A `u16` is its 2 bytes, least significant first.
impl GuestValue for u16 {
    open spec fn size() -> nat {
        2
    }

    open spec fn raw_bytes(&self) -> Seq<Byte> {
        le_bytes(*self as nat, 2)
    }

    proof fn lemma_fixed_size(&self) {
        lemma_le_bytes_len(*self as nat, 2);
    }

    fn to_raw_bytes(&self) -> (bytes: Vec<Byte>) {
        le_bytes_of(*self as u64, 2)
    }
}

/// A `u32` is its 4 bytes, least significant first.
impl GuestValue for u32 {
    open spec fn size() -> nat {
        4
    }

    open spec fn raw_bytes(&self) -> Seq<Byte> {
        le_bytes(*self as nat, 4)
    }

    proof fn lemma_fixed_size(&self) {
        lemma_le_bytes_len(*self as nat, 4);
    }

    fn to_raw_bytes(&self) -> (bytes: Vec<Byte>) {
        le_bytes_of(*self as u64, 4)
    }
}

/// A `u64` is its 8 bytes, least significant first.
impl GuestValue for u64 {
    open spec fn size() -> nat {
        8
    }

    open spec fn raw_bytes(&self) -> Seq<Byte> {
        le_bytes(*self as nat, 8)
    }

    proof fn lemma_fixed_size(&self) {
        lemma_le_bytes_len(*self as nat, 8);
    }

    fn to_raw_bytes(&self) -> (bytes: Vec<Byte>) {
        le_bytes_of(*self, 8)
    }
}

} // verus!
