use vstd::prelude::*;

verus! {

/// Errors surfaced to the user interface. Each variant carries a
/// human-readable message.
#[derive(Debug, Clone, PartialEq, Eq)]
pub enum AppError {
    /// A validation or business-rule failure.
    Message(String),
    /// The referenced row does not exist or belongs to another firm.
    NotFound(String),
    /// No session, or wrong credentials.
    Unauthorised(String),
    /// Malformed or undecryptable key material.
    Crypto(String),
    /// The store refused a statement (a constraint, a missing table).
    Database(String),
}

/// The message an error carries.
pub open spec fn message_of(e: AppError) -> Seq<char> {
    match e {
        AppError::Message(m) => m@,
        AppError::NotFound(m) => m@,
        AppError::Unauthorised(m) => m@,
        AppError::Crypto(m) => m@,
        AppError::Database(m) => m@,
    }
}

/// Shorthand for results of this crate.
pub type AppResult<T> = Result<T, AppError>;

} // verus!
