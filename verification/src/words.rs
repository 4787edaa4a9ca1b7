//! Plain-value forms of the chain's 256-bit quantities.
//!
//! The contract ABI speaks in `uint256` words and `bytes32` hashes. This
//! module holds them as arrays of limbs and bytes, so that contracts can say
//! exactly what a value is, and turns to the `web3` types only to build or
//! read one.

use vstd::prelude::*;
use web3::types::{H256, U256};

verus! {

/// A `uint256` as four 64-bit limbs, least significant first.
#[derive(Clone, Copy, Debug, PartialEq, Eq)]
pub struct Word256 {
    pub limbs: [u64; 4],
}

/// A `bytes32` value.
#[derive(Clone, Copy, Debug, PartialEq, Eq)]
pub struct Hash256 {
    pub bytes: [u8; 32],
}

impl View for Word256 {
    type V = Seq<u64>;

    open spec fn view(&self) -> Seq<u64> {
        self.limbs@
    }
}

impl View for Hash256 {
    type V = Seq<u8>;

    open spec fn view(&self) -> Seq<u8> {
        self.bytes@
    }
}

/// The limbs of the word whose value is `v`.
pub open spec fn word_of_u32(v: u32) -> Seq<u64> {
    seq![v as u64, 0u64, 0u64, 0u64]
}

/// Thirty-two zero bytes.
pub open spec fn zero_bytes() -> Seq<u8> {
    Seq::new(32, |i: int| 0u8)
}

/// Whether the word with these limbs is at most `u32::MAX`.
pub open spec fn fits_u32(limbs: Seq<u64>) -> bool {
    &&& limbs.len() == 4
    &&& limbs[0] <= u32::MAX
    &&& limbs[1] == 0
    &&& limbs[2] == 0
    &&& limbs[3] == 0
}

/// The value of a word that fits in 32 bits.
pub open spec fn low_u32(limbs: Seq<u64>) -> u32
    recommends
        fits_u32(limbs),
{
    limbs[0] as u32
}

/// Calls `U256::from(u32)`. The conversion widens the argument into the
/// lowest limb and leaves the three upper limbs zero.
#[verifier::external_body]
pub(crate) fn u256_from_u32(v: u32) -> (w: Word256)
    ensures
        w@ == word_of_u32(v),
{
    Word256 { limbs: U256::from(v).0 }
}

/// Calls `U256::as_u32`, which panics unless the value fits in 32 bits; on
/// such a value it returns the lowest limb.
#[verifier::external_body]
pub(crate) fn u256_as_u32(w: &Word256) -> (v: u32)
    requires
        fits_u32(w@),
    ensures
        v == low_u32(w@),
{
    U256(w.limbs).as_u32()
}

/// Calls `H256::zero()`, the hash whose bytes are all zero.
#[verifier::external_body]
pub(crate) fn h256_zero() -> (h: Hash256)
    ensures
        h@ == zero_bytes(),
{
    Hash256 { bytes: H256::zero().0 }
}

impl Word256 {
    /// Whether the value fits in 32 bits.
    pub fn fits_u32(&self) -> (b: bool)
        ensures
            b == fits_u32(self@),
    {
        self.limbs[0] <= 0xffff_ffff && self.limbs[1] == 0 && self.limbs[2] == 0
            && self.limbs[3] == 0
    }
}

} // verus!
