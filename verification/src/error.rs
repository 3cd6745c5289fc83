//! The failures a pipeline can report.

use vstd::prelude::*;

verus! {

/// Which stream of a stage a copy was serving.
#[derive(Clone, Copy, Debug, PartialEq, Eq, Structural)]
pub enum Direction {
    /// Bytes flowing into the stage's standard input.
    Stdin,
    /// Bytes flowing out of the stage's standard output.
    Stdout,
    /// Bytes flowing out of the stage's standard error.
    Stderr,
}

/// Why a pipeline did not succeed. Every variant names the stage, counted
/// from zero, to which the failure is attributed.
#[derive(Debug, PartialEq, Eq)]
pub enum Error {
    /// The operating system could not create the process of `stage`.
    SpawnFailed { stage: usize, cause: String },
    /// A copy between the pipeline and a buffer, reader or writer failed.
    IoFailure { stage: usize, direction: Direction, cause: String },
    /// The process of `stage` ran to completion with a status other than zero.
    NonZeroExit { stage: usize, code: i32 },
}

/// The mathematical value of an [`Error`].
pub enum ErrorView {
    SpawnFailed { stage: nat, cause: Seq<char> },
    IoFailure { stage: nat, direction: Direction, cause: Seq<char> },
    NonZeroExit { stage: nat, code: int },
}

impl ErrorView {
    /// The stage to which the failure is attributed.
    pub open spec fn stage(self) -> nat {
        match self {
            ErrorView::SpawnFailed { stage, .. } => stage,
            ErrorView::IoFailure { stage, .. } => stage,
            ErrorView::NonZeroExit { stage, .. } => stage,
        }
    }
}

impl View for Error {
    type V = ErrorView;

    open spec fn view(&self) -> ErrorView {
        match self {
            Error::SpawnFailed { stage, cause } => ErrorView::SpawnFailed {
                stage: *stage as nat,
                cause: cause@,
            },
            Error::IoFailure { stage, direction, cause } => ErrorView::IoFailure {
                stage: *stage as nat,
                direction: *direction,
                cause: cause@,
            },
            Error::NonZeroExit { stage, code } => ErrorView::NonZeroExit {
                stage: *stage as nat,
                code: *code as int,
            },
        }
    }
}

impl Error {
    /// The stage to which the failure is attributed.
    pub fn stage(&self) -> (stage: usize)
        ensures
            stage == self@.stage(),
    {
        match self {
            Error::SpawnFailed { stage, .. } => *stage,
            Error::IoFailure { stage, .. } => *stage,
            Error::NonZeroExit { stage, .. } => *stage,
        }
    }

    /// A copy of this error with the same value.
    pub fn duplicate(&self) -> (copy: Error)
        ensures
            copy@ == self@,
    {
        match self {
            Error::SpawnFailed { stage, cause } => Error::SpawnFailed {
                stage: *stage,
                cause: cause.clone(),
            },
            Error::IoFailure { stage, direction, cause } => Error::IoFailure {
                stage: *stage,
                direction: *direction,
                cause: cause.clone(),
            },
            Error::NonZeroExit { stage, code } => Error::NonZeroExit { stage: *stage, code: *code },
        }
    }
}

} // verus!
