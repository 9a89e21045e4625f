//! The error taxonomy and the result wrappers built on it.

use vstd::prelude::*;

verus! {

/// Why an operation was turned down.
#[derive(Clone, Copy, Debug, PartialEq, Eq, Structural)]
pub enum Error {
    /// A context was requested while another one holds the accelerator.
    AlreadyInUse,
    /// The context behind the operation has been destroyed.
    InvalidContext,
    /// The pass does not hold the display list open that the operation is for.
    InvalidPass,
    /// The display list category was already opened or submitted in this pass.
    AlreadyOpenedOrSubmitted,
    /// More bytes were requested from the disc than one chunk can hold.
    ReadTooLarge,
    /// The drive reported a failure.
    IoFailure,
}

impl Error {
    /// The text that goes with the error.
    pub open spec fn text(self) -> Seq<char> {
        match self {
            Error::AlreadyInUse => "PowerVR context is already in use"@,
            Error::InvalidContext => "Context is not valid"@,
            Error::InvalidPass => "Pass does not hold the list open"@,
            Error::AlreadyOpenedOrSubmitted => "List has either been opened or submitted already."@,
            Error::ReadTooLarge => "Read exceeds the maximum chunk size"@,
            Error::IoFailure => "Disc drive reported a failure"@,
        }
    }

    /// Returns the text that goes with the error.
    pub fn message(&self) -> (message: &'static str)
        ensures
            message@ == self.text(),
    {
        match self {
            Error::AlreadyInUse => "PowerVR context is already in use",
            Error::InvalidContext => "Context is not valid",
            Error::InvalidPass => "Pass does not hold the list open",
            Error::AlreadyOpenedOrSubmitted => "List has either been opened or submitted already.",
            Error::ReadTooLarge => "Read exceeds the maximum chunk size",
            Error::IoFailure => "Disc drive reported a failure",
        }
    }
}

/// Encapsulates the response of a call that requires an OK response.
#[derive(Debug)]
pub enum OkResult<T> {
    /// Returned on a successful message call.
    Okay(T),
    /// Returned when an error is encountered during a message call.
    Error(Error),
}

/// Encapsulates the response of a call that requires a `Valid` response.
#[derive(Debug)]
pub enum ValidResult<T> {
    /// Returned when a valid object can be returned
    Valid(T),
    /// Returned when the object is invalid
    Invalid(Error),
}

} // verus!
