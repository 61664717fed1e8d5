//! The decision points of the transfer protocol and of window queries, as
//! pure functions from the values the store hands back. The front end
//! performs the store calls and drives these decisions in order; the ledger
//! model in [`crate::ledger`] executes the same protocol against the
//! in-memory store model.

use vstd::prelude::*;

use crate::error_codes::Error;
use crate::transactions::THRESHOLD_BALANCE;

verus! {

/// `MAX_WINDOW_SIZE` denotes the maximum allowable number of ledger rows
/// that one window query may ask for.
pub const MAX_WINDOW_SIZE: u64 = 25;

/// The `limit` query parameter of a window request, absent when the client
/// wants the full window.
#[derive(Clone, Copy, Debug)]
pub struct Limit {
    pub limit: Option<u64>,
}

/// Resolves a window request to the number of ledger rows to read: an
/// absent limit means the full window, a zero or over-cap limit fails with
/// [`Error::WindowLimitExceeded`] before any store access.
pub fn validate_window(limit: &Limit) -> (r: Result<u64, Error>)
    ensures
        limit.limit is None ==> r == Ok::<u64, Error>(MAX_WINDOW_SIZE),
        limit.limit matches Some(w) ==> r == (if 1 <= w && w <= MAX_WINDOW_SIZE {
            Ok::<u64, Error>(w)
        } else {
            Err::<u64, Error>(Error::WindowLimitExceeded)
        }),
{
    let window = match limit.limit {
        Some(w) => w,
        None => MAX_WINDOW_SIZE,
    };
    if window == 0 || window > MAX_WINDOW_SIZE {
        Err(Error::WindowLimitExceeded)
    } else {
        Ok(window)
    }
}

/// The sender-side decisions of a transfer, taken on what the sender lookup
/// returned: an absent sender fails with [`Error::SenderDoesNotExist`], a
/// balance that cannot cover the amount and keep the minimum fails with
/// [`Error::NotEnoughBalance`], and otherwise the balance passes through.
pub fn sender_check(lookup: Option<u64>, amount: u64) -> (r: Result<u64, Error>)
    ensures
        lookup is None ==> r == Err::<u64, Error>(Error::SenderDoesNotExist),
        lookup matches Some(balance) ==> r == (if balance < amount + THRESHOLD_BALANCE {
            Err::<u64, Error>(Error::NotEnoughBalance)
        } else {
            Ok::<u64, Error>(balance)
        }),
{
    match lookup {
        None => Err(Error::SenderDoesNotExist),
        Some(balance) => {
            if amount > u64::MAX - THRESHOLD_BALANCE || balance < amount + THRESHOLD_BALANCE {
                Err(Error::NotEnoughBalance)
            } else {
                Ok(balance)
            }
        },
    }
}

/// The receiver-side decision of a transfer, taken on whether the receiver
/// lookup found the account: an absent receiver fails with
/// [`Error::RecipientDoesNotExist`].
pub fn receiver_check(exists: bool) -> (r: Result<(), Error>)
    ensures
        exists ==> r == Ok::<(), Error>(()),
        !exists ==> r == Err::<(), Error>(Error::RecipientDoesNotExist),
{
    if exists {
        Ok(())
    } else {
        Err(Error::RecipientDoesNotExist)
    }
}

} // verus!
