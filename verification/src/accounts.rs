//! The account record: a client-assigned identifier and a non-negative
//! balance in minor currency units.

use vstd::prelude::*;

verus! {

/// One account row. The id is assigned by the client at creation time and
/// immutable once set; the balance is mutated only by the transfer routine's
/// debit/credit step.
#[derive(Clone, Copy, Debug, PartialEq, Eq, Structural)]
pub struct User {
    pub id: u64,
    pub balance: u64,
}

} // verus!
