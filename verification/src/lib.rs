//! Verified core of an account-ledger service.
//!
//! Clients create accounts, query balances, and move funds between accounts.
//! This crate holds the parts of that service whose behaviour is proved:
//! the ledger store model with its transfer protocol (existence checks,
//! minimum-balance threshold, atomic debit/credit/append), the accounting of
//! the bounded connection pool, the request-window validation, and the error
//! taxonomy that the HTTP boundary maps to status codes. The network front
//! end and the relational store driver live outside this crate and hand it
//! plain values.

pub mod accounts;
pub mod config;
pub mod convert;
pub mod db;
pub mod error_codes;
pub mod ledger;
pub mod pool;
pub mod protocol;
pub mod transactions;
