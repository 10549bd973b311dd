//! The ways in which a tee can fail.

use vstd::prelude::*;

verus! {

/// What went wrong while a tee was built, read or relayed.
#[derive(Clone, Copy, Debug, PartialEq, Eq, Structural)]
pub enum TeeError {
    /// The backing store could not be created.
    BackingStore,
    /// A handle to the backing store could not be duplicated.
    Duplication,
    /// Reading the backing store failed.
    Read,
    /// Writing to the destination stream failed.
    Write,
}

/// The outside work that a tee depends on.
#[derive(Clone, Copy, Debug, PartialEq, Eq, Structural)]
pub enum Operation {
    /// Creating the temporary file that backs the tee.
    CreateStore,
    /// Duplicating a handle to the backing store.
    DuplicateHandle,
    /// Asking for the backing store's length.
    QueryLength,
    /// Reading the backing store by position.
    ReadStore,
    /// Writing to the destination stream.
    WriteDestination,
}

impl TeeError {
    /// The error that is reported when `operation` fails.
    pub open spec fn spec_when_failed(operation: Operation) -> TeeError {
        match operation {
            Operation::CreateStore => TeeError::BackingStore,
            Operation::DuplicateHandle => TeeError::Duplication,
            Operation::QueryLength => TeeError::Read,
            Operation::ReadStore => TeeError::Read,
            Operation::WriteDestination => TeeError::Write,
        }
    }

    /// The error that is reported when `operation` fails.
    #[verifier::when_used_as_spec(spec_when_failed)]
    pub fn when_failed(operation: Operation) -> (error: TeeError)
        ensures
            error == Self::spec_when_failed(operation),
    {
        match operation {
            Operation::CreateStore => TeeError::BackingStore,
            Operation::DuplicateHandle => TeeError::Duplication,
            Operation::QueryLength | Operation::ReadStore => TeeError::Read,
            Operation::WriteDestination => TeeError::Write,
        }
    }

    /// The error in words.
    pub fn message(&self) -> (text: &'static str)
        ensures
            text@ == match *self {
                TeeError::BackingStore => "the backing store could not be created"@,
                TeeError::Duplication => "a handle to the backing store could not be duplicated"@,
                TeeError::Read => "reading the backing store failed"@,
                TeeError::Write => "writing to the destination stream failed"@,
            },
    {
        match self {
            TeeError::BackingStore => "the backing store could not be created",
            TeeError::Duplication => "a handle to the backing store could not be duplicated",
            TeeError::Read => "reading the backing store failed",
            TeeError::Write => "writing to the destination stream failed",
        }
    }
}

} // verus!
