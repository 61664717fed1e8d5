//! Conversions between the service's unsigned identifiers and amounts and
//! the signed 64-bit integers the relational store holds them as. Both
//! directions are the two's-complement reinterpretation of the 64 bits.

use vstd::prelude::*;

verus! {

/// Reads a stored signed 64-bit value back as the unsigned value it
/// encodes: the value itself when non-negative, and the value plus 2^64
/// otherwise.
pub fn bigint_to_u64(val: i64) -> (r: u64)
    ensures
        val >= 0 ==> r == val,
        val < 0 ==> r == val + 0x1_0000_0000_0000_0000,
{
    if val >= 0 {
        val as u64
    } else {
        let m = -(val + 1);
        u64::MAX - (m as u64)
    }
}

/// Encodes an unsigned value as the signed 64-bit integer the store holds:
/// the value itself when it fits, and the value minus 2^64 otherwise.
pub fn u64_to_bigint(val: u64) -> (r: i64)
    ensures
        val <= i64::MAX ==> r == val,
        val > i64::MAX ==> r == val - 0x1_0000_0000_0000_0000,
{
    if val <= 0x7fff_ffff_ffff_ffff {
        val as i64
    } else {
        let m = u64::MAX - val;
        -(m as i64) - 1
    }
}

} // verus!
