//! The failures that the store reports.

use vstd::prelude::*;

verus! {

/// Which part of an operation failed.
#[derive(Clone, Copy, Debug, PartialEq, Eq, Structural)]
pub enum ErrorKind {
    /// The host could not name a data directory.
    PathResolution,
    /// A directory or file could not be created, read, written or removed.
    Io,
    /// The token file does not hold a record.
    Decode,
    /// The record could not be turned into text.
    Encode,
}

/// The mathematical value of a [`StoreError`].
pub struct Failure {
    pub kind: ErrorKind,
    pub message: Seq<char>,
}

/// A failure of the store: its kind, and a message for a human reader.
#[derive(Clone, Debug, PartialEq, Eq)]
pub struct StoreError {
    pub kind: ErrorKind,
    pub message: String,
}

impl View for StoreError {
    type V = Failure;

    open spec fn view(&self) -> Failure {
        Failure { kind: self.kind, message: self.message@ }
    }
}

impl StoreError {
    /// A failure of the given kind with the given message.
    pub fn new(kind: ErrorKind, message: String) -> (error: StoreError)
        ensures
            error@ == (Failure { kind, message: message@ }),
    {
        StoreError { kind, message }
    }

    /// The failure as the host sees it: the message alone, the kind dropped.
    pub fn into_message(self) -> (message: String)
        ensures
            message@ == self@.message,
    {
        self.message
    }
}

} // verus!
