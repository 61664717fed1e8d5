//! Account creation and query behaviour of the ledger store model.

use ledger_service::accounts::User;
use ledger_service::db::Database;

// Simulate account create success.
#[test]
fn test_create_account_success() {
    let mut service = Database::new();

    // create user 1
    let response = service.create_account(User { id: 1, balance: 10000 });
    assert!(response.is_ok());

    // query balance from 1 and check if balance is deducted
    let response = service.get_account_info(Some(1));
    assert!(response.is_ok());
    let user1 = response.unwrap()[0];
    assert_eq!(user1.balance, 10000);
}

// Simulate non existent account query failure.
#[test]
fn test_non_existent_query_failure() {
    let mut service = Database::new();

    // query balance from 1 and check if balance is deducted
    let response = service.get_account_info(Some(1));
    assert!(response.is_err());

    let error_response = response.err().unwrap().message();
    assert_eq!(
        error_response,
        "Sender id does not exist on record. Please provide correct ID"
    );
}

// Simulate duplicate account creation failure.
#[test]
fn test_duplicate_account_creation_failure() {
    let mut service = Database::new();

    // create user 1
    let response = service.create_account(User { id: 1, balance: 10000 });
    assert!(response.is_ok());

    // query balance from 1 and check if balance is deducted
    let response = service.get_account_info(Some(1));
    assert!(response.is_ok());
    let user1 = response.unwrap()[0];
    assert_eq!(user1.balance, 10000);

    // create user 1 again
    let response = service.create_account(User { id: 1, balance: 10000 });
    assert!(response.is_err());

    let error_response = response.err().unwrap().message();
    assert_eq!(error_response, "Account exists on DB");
}

// A duplicate creation never mutates the existing account's balance, even
// when it asks for a different one.
#[test]
fn test_duplicate_creation_leaves_balance_alone() {
    let mut service = Database::new();

    assert!(service.create_account(User { id: 7, balance: 300 }).is_ok());

    let response = service.create_account(User { id: 7, balance: 9999 });
    assert!(response.is_err());
    assert_eq!(response.err().unwrap().message(), "Account exists on DB");

    let user7 = service.get_account_info(Some(7)).unwrap()[0];
    assert_eq!(user7.balance, 300);
}

// The creation acknowledgement is the fixed string the service answers.
#[test]
fn test_create_account_ack_string() {
    let mut service = Database::new();
    let response = service.create_account(User { id: 1, balance: 1 });
    assert_eq!(response.unwrap(), "Account created successfully");
}

// Querying without an identifier answers the whole table ordered by
// descending identifier.
#[test]
fn test_query_all_accounts_descending() {
    let mut service = Database::new();
    assert!(service.create_account(User { id: 1, balance: 10 }).is_ok());
    assert!(service.create_account(User { id: 3, balance: 30 }).is_ok());
    assert!(service.create_account(User { id: 2, balance: 20 }).is_ok());

    let all = service.get_account_info(None).unwrap();
    let ids: Vec<u64> = all.iter().map(|u| u.id).collect();
    assert_eq!(ids, vec![3, 2, 1]);
    let balances: Vec<u64> = all.iter().map(|u| u.balance).collect();
    assert_eq!(balances, vec![30, 20, 10]);
}

// Querying without an identifier never fails: on an empty table it answers
// the empty table.
#[test]
fn test_query_all_accounts_empty_table() {
    let mut service = Database::new();
    let response = service.get_account_info(None);
    assert!(response.is_ok());
    assert!(response.unwrap().is_empty());
}

// Idempotent read: two queries without an intervening transfer answer with
// identical balances.
#[test]
fn test_account_query_idempotent() {
    let mut service = Database::new();
    assert!(service.create_account(User { id: 4, balance: 44 }).is_ok());
    assert!(service.create_account(User { id: 9, balance: 99 }).is_ok());

    let first = service.get_account_info(Some(4)).unwrap();
    let second = service.get_account_info(Some(4)).unwrap();
    assert_eq!(first, second);

    let all_first = service.get_account_info(None).unwrap();
    let all_second = service.get_account_info(None).unwrap();
    assert_eq!(all_first, all_second);
}
