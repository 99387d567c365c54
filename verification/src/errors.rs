//! The failure taxonomy of the service.
//!
//! Every failure is a value of `KvError`; dispatch converts it into a
//! response with a deterministic status code and a message that copies the
//! error's description.

use vstd::prelude::*;
use vstd::string::StringExecFns;

use crate::pb::{STATUS_BAD_REQUEST, STATUS_INTERNAL, STATUS_NOT_FOUND};

verus! {

/// A failure of the service: a missing key (with its table and key), a
/// malformed request, an internal fault, or a failure reported by a storage
/// backend.
#[derive(Debug, Clone, PartialEq)]
pub enum KvError {
    NotFound(String, String),
    InvalidCommand(String),
    Internal(String),
    BackendError(String),
}

/// The description of a missing-key failure.
pub open spec fn not_found_msg(table: Seq<char>, key: Seq<char>) -> Seq<char> {
    "Not found for table: "@ + table + ", key: "@ + key
}

/// The description of a `KvError`, as a character sequence.
pub open spec fn error_message(e: KvError) -> Seq<char> {
    match e {
        KvError::NotFound(t, k) => not_found_msg(t@, k@),
        KvError::InvalidCommand(d) => "Invalid command: "@ + d@,
        KvError::Internal(d) => "Internal error: "@ + d@,
        KvError::BackendError(d) => "Backend error: "@ + d@,
    }
}

/// The status code a `KvError` converts to: 404 for a missing key, 400 for a
/// malformed request, 500 for everything else.
pub open spec fn error_status(e: KvError) -> u32 {
    match e {
        KvError::NotFound(_, _) => STATUS_NOT_FOUND,
        KvError::InvalidCommand(_) => STATUS_BAD_REQUEST,
        KvError::Internal(_) => STATUS_INTERNAL,
        KvError::BackendError(_) => STATUS_INTERNAL,
    }
}

impl KvError {
    /// The status code this error converts to.
    pub fn status(&self) -> (r: u32)
        ensures
            r == error_status(*self),
    {
        match self {
            KvError::NotFound(_, _) => STATUS_NOT_FOUND,
            KvError::InvalidCommand(_) => STATUS_BAD_REQUEST,
            KvError::Internal(_) => STATUS_INTERNAL,
            KvError::BackendError(_) => STATUS_INTERNAL,
        }
    }

    /// Renders the description of this error.
    pub fn message(&self) -> (r: String)
        ensures
            r@ == error_message(*self),
    {
        match self {
            KvError::NotFound(t, k) => {
                let mut m = String::from_str("Not found for table: ");
                m.append(t.as_str());
                m.append(", key: ");
                m.append(k.as_str());
                m
            },
            KvError::InvalidCommand(d) => {
                let mut m = String::from_str("Invalid command: ");
                m.append(d.as_str());
                m
            },
            KvError::Internal(d) => {
                let mut m = String::from_str("Internal error: ");
                m.append(d.as_str());
                m
            },
            KvError::BackendError(d) => {
                let mut m = String::from_str("Backend error: ");
                m.append(d.as_str());
                m
            },
        }
    }
}

} // verus!
