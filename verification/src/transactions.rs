//! The ledger entry appended by a successful transfer, and the minimum
//! balance a sender must retain.

use vstd::prelude::*;

verus! {

/// One ledger row: `amount` moved from the account `from_id` to the account
/// `to_id`. Rows are append-only; their insertion order is the "most recent
/// first" order that window queries answer in.
#[derive(Clone, Copy, Debug, PartialEq, Eq, Structural)]
pub struct Transaction {
    pub from_id: u64,
    pub to_id: u64,
    pub amount: u64,
}

/// `THRESHOLD_BALANCE` denotes the minimum balance an account must retain
/// after acting as a transfer sender.
pub const THRESHOLD_BALANCE: u64 = 5;

} // verus!
