//! Fixed-width byte containers for domain values.
//!
//! Every value exchanged with the host is a plain container of 16, 20 or 32
//! bytes; any byte pattern is accepted as-is, and domain meaning is the host's
//! responsibility.  Each container supports zero-initialized construction (the
//! state a destination buffer is in before the host populates it) and an exact
//! byte-for-byte equality test.

use vstd::prelude::*;

verus! {

/// A 16-byte container holding a monetary amount; no implicit scaling.
#[derive(Copy, Clone, Debug, PartialEq, Eq)]
pub struct Uint128 {
    pub bytes: [u8; 16],
}

/// A 20-byte container holding an account identifier.
#[derive(Copy, Clone, Debug, PartialEq, Eq)]
pub struct Bytes20 {
    pub bytes: [u8; 20],
}

/// A 32-byte container holding an opaque 256-bit quantity.
#[derive(Copy, Clone, Debug, PartialEq, Eq)]
pub struct Bytes32 {
    pub bytes: [u8; 32],
}

pub type EtherValue = Uint128;

pub type Address = Bytes20;

pub type StorageKey = Bytes32;

pub type StorageValue = Bytes32;

pub type Topic = Bytes32;

pub type Hash = Bytes32;

/// The host contract leaves the difficulty's representation unresolved, so it
/// is kept as opaque bytes.
pub type Difficulty = Bytes32;

/// Every byte of the sequence is zero.
pub open spec fn all_zero(s: Seq<u8>) -> bool {
    forall|i: int| 0 <= i < s.len() ==> s[i] == 0
}

impl Uint128 {
    /// A zero-initialized value, as handed to the host for population.
    pub fn zero() -> (r: Self)
        ensures
            all_zero(r.bytes@),
    {
        let bytes = [0u8; 16];
        Uint128 { bytes }
    }
}

impl Bytes20 {
    /// A zero-initialized value, as handed to the host for population.
    pub fn zero() -> (r: Self)
        ensures
            all_zero(r.bytes@),
    {
        let bytes = [0u8; 20];
        Bytes20 { bytes }
    }
}

impl Bytes32 {
    /// A zero-initialized value, as handed to the host for population.
    pub fn zero() -> (r: Self)
        ensures
            all_zero(r.bytes@),
    {
        let bytes = [0u8; 32];
        Bytes32 { bytes }
    }
}

impl Default for Uint128 {
    fn default() -> (r: Self)
        ensures
            all_zero(r.bytes@),
    {
        Uint128::zero()
    }
}

impl Default for Bytes20 {
    fn default() -> (r: Self)
        ensures
            all_zero(r.bytes@),
    {
        Bytes20::zero()
    }
}

impl Default for Bytes32 {
    fn default() -> (r: Self)
        ensures
            all_zero(r.bytes@),
    {
        Bytes32::zero()
    }
}

/// Byte-for-byte equality of two 20-byte containers.
pub fn bytes20_eq(a: &Bytes20, b: &Bytes20) -> (r: bool)
    ensures
        r <==> a.bytes@ == b.bytes@,
{
    let mut i: usize = 0;
    while i < 20
        invariant
            i <= 20,
            forall|j: int| 0 <= j < i ==> a.bytes@[j] == b.bytes@[j],
        decreases 20 - i,
    {
        if a.bytes[i] != b.bytes[i] {
            return false;
        }
        i += 1;
    }
    proof {
        assert(a.bytes@ =~= b.bytes@);
    }
    true
}

/// Byte-for-byte equality of two 32-byte containers.
pub fn bytes32_eq(a: &Bytes32, b: &Bytes32) -> (r: bool)
    ensures
        r <==> a.bytes@ == b.bytes@,
{
    let mut i: usize = 0;
    while i < 32
        invariant
            i <= 32,
            forall|j: int| 0 <= j < i ==> a.bytes@[j] == b.bytes@[j],
        decreases 32 - i,
    {
        if a.bytes[i] != b.bytes[i] {
            return false;
        }
        i += 1;
    }
    proof {
        assert(a.bytes@ =~= b.bytes@);
    }
    true
}

} // verus!
