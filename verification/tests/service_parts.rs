//! The pool accounting, the protocol decision functions, the store-integer
//! conversions, and the error taxonomy.

use ledger_service::convert::{bigint_to_u64, u64_to_bigint};
use ledger_service::error_codes::Error;
use ledger_service::pool::{PoolState, MAX_IDLE_CONNECTIONS, MAX_OPEN_CONNECTIONS};
use ledger_service::protocol::{receiver_check, sender_check, validate_window, Limit};

#[test]
fn test_pool_exhaustion_gives_resource_busy() {
    let mut pool = PoolState::new();
    for _ in 0..MAX_OPEN_CONNECTIONS {
        assert!(pool.acquire().is_ok());
    }
    let over = pool.acquire();
    assert_eq!(over, Err(Error::ResourceBusy));
    assert_eq!(
        over.err().unwrap().message(),
        "Database resources busy. Please contact system administrator."
    );
}

#[test]
fn test_pool_release_fills_idle_reserve_to_cap() {
    let mut pool = PoolState::new();
    for _ in 0..MAX_OPEN_CONNECTIONS {
        assert!(pool.acquire().is_ok());
    }
    // releasing every lease fills the idle reserve only up to its cap;
    // the rest of the connections are closed
    for _ in 0..MAX_OPEN_CONNECTIONS {
        pool.release();
    }
    assert_eq!(pool.leased, 0);
    assert_eq!(pool.idle, MAX_IDLE_CONNECTIONS);

    // an idle connection is reused before a new one is opened
    assert!(pool.acquire().is_ok());
    assert_eq!(pool.idle, MAX_IDLE_CONNECTIONS - 1);
    assert_eq!(pool.leased, 1);
}

#[test]
fn test_validate_window() {
    assert_eq!(validate_window(&Limit { limit: None }), Ok(25));
    assert_eq!(validate_window(&Limit { limit: Some(1) }), Ok(1));
    assert_eq!(validate_window(&Limit { limit: Some(25) }), Ok(25));
    assert_eq!(
        validate_window(&Limit { limit: Some(0) }),
        Err(Error::WindowLimitExceeded)
    );
    assert_eq!(
        validate_window(&Limit { limit: Some(26) }),
        Err(Error::WindowLimitExceeded)
    );
}

#[test]
fn test_sender_check_decisions() {
    assert_eq!(sender_check(None, 100), Err(Error::SenderDoesNotExist));
    assert_eq!(sender_check(Some(104), 100), Err(Error::NotEnoughBalance));
    assert_eq!(sender_check(Some(105), 100), Ok(105));
    // an amount so large that no balance can cover it and the minimum
    assert_eq!(
        sender_check(Some(u64::MAX), u64::MAX - 4),
        Err(Error::NotEnoughBalance)
    );
    assert_eq!(sender_check(Some(u64::MAX), u64::MAX - 5), Ok(u64::MAX));
}

#[test]
fn test_receiver_check_decisions() {
    assert_eq!(receiver_check(true), Ok(()));
    assert_eq!(receiver_check(false), Err(Error::RecipientDoesNotExist));
}

#[test]
fn test_bigint_round_trips() {
    for v in [0i64, 1, -1, 42, i64::MAX, i64::MIN] {
        assert_eq!(u64_to_bigint(bigint_to_u64(v)), v);
    }
    for v in [0u64, 1, 42, u64::MAX, u64::MAX / 2, u64::MAX / 2 + 1] {
        assert_eq!(bigint_to_u64(u64_to_bigint(v)), v);
    }
    assert_eq!(bigint_to_u64(-1), u64::MAX);
    assert_eq!(u64_to_bigint(u64::MAX), -1);
    assert_eq!(bigint_to_u64(i64::MIN), u64::MAX / 2 + 1);
    assert_eq!(u64_to_bigint(7), 7);
}

#[test]
fn test_error_status_codes() {
    assert_eq!(Error::ResourceBusy.status_code(), 500);
    assert_eq!(Error::WindowLimitExceeded.status_code(), 400);
    assert_eq!(Error::DatabaseQueryError.status_code(), 400);
    assert_eq!(Error::SerializationFailure.status_code(), 400);
    assert_eq!(Error::NotEnoughBalance.status_code(), 400);
    assert_eq!(Error::SenderDoesNotExist.status_code(), 400);
    assert_eq!(Error::RecipientDoesNotExist.status_code(), 400);
    assert_eq!(Error::AccountExists.status_code(), 400);
}

#[test]
fn test_error_messages() {
    assert_eq!(
        Error::WindowLimitExceeded.message(),
        "Current window limit has exceeded. Please adhere to a max limit of 25."
    );
    assert_eq!(
        Error::SerializationFailure.message(),
        "Serde serialization failed. Please check Tx data stucture."
    );
    assert_eq!(
        Error::DatabaseQueryError.message(),
        "Database query error occured. Please check query attributes."
    );
    assert_eq!(
        Error::ResourceBusy.message(),
        "Database resources busy. Please contact system administrator."
    );
    assert_eq!(
        Error::NotEnoughBalance.message(),
        "Sender does not have enough balance to submit this transacion.Minimum balance needs to be 5."
    );
    assert_eq!(
        Error::SenderDoesNotExist.message(),
        "Sender id does not exist on record. Please provide correct ID"
    );
    assert_eq!(
        Error::RecipientDoesNotExist.message(),
        "Receiver id does not exist on record. Please provide correct ID"
    );
    assert_eq!(Error::AccountExists.message(), "Account exists on DB");
}
