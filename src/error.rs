//! The error vocabulary of the protocol.
use vstd::prelude::*;

verus! {

/// The protocol-level status of a failed command.
#[derive(Clone, Copy, Debug, PartialEq, Eq, Structural)]
pub enum ErrorStatus {
    Timeout,
    InvalidArgument,
    UnknownError,
    UnsupportedOperation,
    InvalidSelector,
    StaleElementReference,
    /// A command that needs the session arrived while none exists.
    NoSuchSession,
}

/// A failed command: its status and a human-readable message.
#[derive(Debug)]
pub struct WebDriverError {
    pub status: ErrorStatus,
    pub message: String,
}

pub type WebDriverResult<T> = Result<T, WebDriverError>;

impl WebDriverError {
    pub fn new(status: ErrorStatus, message: &str) -> (r: WebDriverError)
        ensures
            r.status == status,
            r.message@ == message@,
    {
        WebDriverError { status, message: String::from_str(message) }
    }
}

} // verus!
