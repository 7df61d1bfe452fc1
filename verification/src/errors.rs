//! The error that every fallible operation of this crate returns.

use vstd::prelude::*;

verus! {

/// What went wrong.
#[derive(Clone, Copy, Debug, PartialEq, Eq, Structural)]
pub enum ErrorCode {
    /// Credentials or the access token are unavailable.
    AuthError,
    /// The handle of the local store cannot be obtained.
    StorageError,
    /// The remote holds no such document.
    RecordNotFound,
    /// Inbound bytes are no well-formed message.
    ParseError,
    /// A delta could not be composed into the document.
    CompositionError,
    /// Anything else.
    Internal,
}

/// An error code with a message for the log.
#[derive(Clone, Debug)]
pub struct FlowyError {
    pub code: ErrorCode,
    pub msg: String,
}

impl FlowyError {
    /// An error of the given code with an empty message.
    pub fn new(code: ErrorCode) -> (e: FlowyError)
        ensures
            e.code == code,
            e.msg@ == Seq::<char>::empty(),
    {
        FlowyError { code, msg: String::new() }
    }

    /// The remote holds no such document.
    pub fn record_not_found() -> (e: FlowyError)
        ensures
            e.code == ErrorCode::RecordNotFound,
            e.msg@ == Seq::<char>::empty(),
    {
        FlowyError::new(ErrorCode::RecordNotFound)
    }

    /// An unexpected failure inside the manager.
    pub fn internal() -> (e: FlowyError)
        ensures
            e.code == ErrorCode::Internal,
            e.msg@ == Seq::<char>::empty(),
    {
        FlowyError::new(ErrorCode::Internal)
    }

    /// The same error with `text` as its message.
    pub fn context(self, text: &str) -> (e: FlowyError)
        ensures
            e.code == self.code,
            e.msg@ == text@,
    {
        FlowyError { code: self.code, msg: text.to_owned() }
    }
}

} // verus!
