//! The supervisor's error kinds.
//!
//! Every operation reports failure through [`AppError`]; absence of a
//! session is never a panic, it is either a `NotFound` error or a no-op,
//! depending on the operation.

use vstd::prelude::*;

verus! {

/// Application-level error, one variant per failure kind.
///
/// The payload is a human-readable message; contracts pin the variant and,
/// where the message matters to callers, its exact text.
#[derive(Debug, Clone)]
pub enum AppError {
    /// A database operation failed.
    Database(String),
    /// A filesystem operation failed.
    FileSystem(String),
    /// A network request failed.
    Network(String),
    /// Process management failed (spawn, write, resize).
    Process(String),
    /// Configuration parsing or validation failed.
    Config(String),
    /// A session or a required launch file was not found.
    NotFound(String),
    /// A parameter was rejected (for example an unknown component key).
    InvalidInput(String),
    /// An internal invariant was violated.
    Internal(String),
}

impl AppError {
    /// The message carried by the error, whatever its kind.
    pub fn message(&self) -> (r: &String)
        ensures
            r@ == self.message_view(),
    {
        match self {
            AppError::Database(m) => m,
            AppError::FileSystem(m) => m,
            AppError::Network(m) => m,
            AppError::Process(m) => m,
            AppError::Config(m) => m,
            AppError::NotFound(m) => m,
            AppError::InvalidInput(m) => m,
            AppError::Internal(m) => m,
        }
    }

    /// The message as a sequence of characters, for contracts.
    pub open spec fn message_view(&self) -> Seq<char> {
        match self {
            AppError::Database(m) => m@,
            AppError::FileSystem(m) => m@,
            AppError::Network(m) => m@,
            AppError::Process(m) => m@,
            AppError::Config(m) => m@,
            AppError::NotFound(m) => m@,
            AppError::InvalidInput(m) => m@,
            AppError::Internal(m) => m@,
        }
    }
}

} // verus!
