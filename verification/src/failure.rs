//! The failures that the library reports.

use vstd::prelude::*;

verus! {

/// What went wrong, by kind.
#[derive(Debug, Clone, Copy, PartialEq, Eq, Structural)]
pub enum FailureKind {
    /// The store could not be opened, or a namespace of it could not be reached,
    /// or the engine failed to read or write.
    StorageUnavailable,
    /// A value could not be turned into bytes.
    Encoding,
    /// Stored bytes do not have the shape that was asked for.
    Decoding,
    /// The wrapped data source failed.
    Upstream,
}

/// A failure: its kind and the message that is shown for it.
#[derive(Debug, Clone, PartialEq, Eq)]
pub struct Failure {
    pub kind: FailureKind,
    pub message: String,
}

/// A [`Failure`] as a mathematical value.
pub struct FailureModel {
    pub kind: FailureKind,
    pub message: Seq<char>,
}

impl View for Failure {
    type V = FailureModel;

    open spec fn view(&self) -> FailureModel {
        FailureModel { kind: self.kind, message: self.message@ }
    }
}

/// Whether a result is the failure of the given kind with the given message.
pub open spec fn fails_with<T>(result: Result<T, Failure>, kind: FailureKind, message: Seq<char>) -> bool {
    match result {
        Ok(_) => false,
        Err(failure) => failure@ == (FailureModel { kind, message }),
    }
}

impl Failure {
    /// A failure of the given kind with the given message.
    pub fn new(kind: FailureKind, message: &str) -> (failure: Failure)
        ensures
            failure@ == (FailureModel { kind, message: message@ }),
    {
        Failure { kind, message: String::from_str(message) }
    }

    /// The message, as it is shown to a caller.
    pub fn to_string(&self) -> (message: String)
        ensures
            message@ == self@.message,
    {
        self.message.clone()
    }
}

} // verus!
