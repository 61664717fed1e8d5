//! The closed set of failure kinds that the service reports, with the HTTP
//! status code and client-facing message that the API boundary sends for
//! each kind.

use vstd::prelude::*;

verus! {

/// Every failure of the service is one of these kinds. The API boundary
/// pattern-matches the set exhaustively to pick a status code and message.
#[derive(Clone, Copy, Debug, PartialEq, Eq, Structural)]
pub enum Error {
    /// The connection pool is exhausted or the lease wait timed out.
    ResourceBusy,
    /// A transaction-window request asked for zero or more than the cap.
    WindowLimitExceeded,
    /// A store call failed for a reason other than a domain rule.
    DatabaseQueryError,
    /// A response could not be serialized.
    SerializationFailure,
    /// The sender cannot keep the minimum balance after the transfer.
    NotEnoughBalance,
    /// The sender (or queried) account does not exist.
    SenderDoesNotExist,
    /// The receiver account does not exist.
    RecipientDoesNotExist,
    /// An account with the requested id already exists.
    AccountExists,
}

impl Error {
    /// The HTTP status code the API boundary answers with for this kind:
    /// 500 for pool exhaustion, 400 for everything else.
    pub fn status_code(&self) -> (code: u16)
        ensures
            code == if self is ResourceBusy { 500u16 } else { 400u16 },
    {
        match self {
            Error::ResourceBusy => 500,
            _ => 400,
        }
    }

    /// The client-facing message the API boundary answers with for this kind.
    pub fn message(&self) -> (msg: &'static str)
        ensures
            self is WindowLimitExceeded ==> msg@ == "Current window limit has exceeded. Please adhere to a max limit of 25."@,
            self is SerializationFailure ==> msg@ == "Serde serialization failed. Please check Tx data stucture."@,
            self is DatabaseQueryError ==> msg@ == "Database query error occured. Please check query attributes."@,
            self is ResourceBusy ==> msg@ == "Database resources busy. Please contact system administrator."@,
            self is NotEnoughBalance ==> msg@ == "Sender does not have enough balance to submit this transacion.Minimum balance needs to be 5."@,
            self is SenderDoesNotExist ==> msg@ == "Sender id does not exist on record. Please provide correct ID"@,
            self is RecipientDoesNotExist ==> msg@ == "Receiver id does not exist on record. Please provide correct ID"@,
            self is AccountExists ==> msg@ == "Account exists on DB"@,
    {
        match self {
            Error::WindowLimitExceeded => "Current window limit has exceeded. Please adhere to a max limit of 25.",
            Error::SerializationFailure => "Serde serialization failed. Please check Tx data stucture.",
            Error::DatabaseQueryError => "Database query error occured. Please check query attributes.",
            Error::ResourceBusy => "Database resources busy. Please contact system administrator.",
            Error::NotEnoughBalance => "Sender does not have enough balance to submit this transacion.Minimum balance needs to be 5.",
            Error::SenderDoesNotExist => "Sender id does not exist on record. Please provide correct ID",
            Error::RecipientDoesNotExist => "Receiver id does not exist on record. Please provide correct ID",
            Error::AccountExists => "Account exists on DB",
        }
    }
}

} // verus!
