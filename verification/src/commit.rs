//! Committing a flash plan: the options under which the driver writes it,
//! and the ways in which the write can fail.

use vstd::prelude::*;

verus! {

/// The options under which a flash plan is written.
#[derive(Clone, Copy, PartialEq, Eq, Debug, Structural)]
pub struct CommitOptions {
    /// Read the written regions back and compare them byte for byte.
    pub verify: bool,
    /// Erase no sector before writing.
    pub skip_erase: bool,
    /// Leave every byte outside the plan's writes as it was.
    pub preserve_unwritten: bool,
}

impl CommitOptions {
    /// The options for a request: always verified; and where erasing is to
    /// be skipped, unwritten bytes are preserved too.
    pub open spec fn for_request(skip_erase: bool) -> CommitOptions {
        CommitOptions { verify: true, skip_erase, preserve_unwritten: skip_erase }
    }

    /// Whether the options fit together: the write is verified, and erasing
    /// is skipped exactly where unwritten bytes are preserved.
    pub open spec fn wf(self) -> bool {
        self.verify && self.skip_erase == self.preserve_unwritten
    }

    /// Makes the options for a request.
    pub fn new(skip_erase: bool) -> (options: Self)
        ensures
            options == CommitOptions::for_request(skip_erase),
            options.wf(),
    {
        CommitOptions { verify: true, skip_erase, preserve_unwritten: skip_erase }
    }
}

/// What went wrong while a flash plan was written.
#[derive(Clone, Copy, PartialEq, Eq, Debug, Structural)]
pub enum CommitCause {
    /// A sector or the chip could not be erased.
    EraseFailure,
    /// A page could not be written.
    WriteFailure,
    /// What was read back differs from what was written.
    VerifyMismatch,
    /// The driver failed in another way.
    Other,
}

impl CommitCause {
    /// The words for the cause in a message.
    pub open spec fn cause_text(self) -> Seq<char> {
        match self {
            CommitCause::EraseFailure => "erase failed"@,
            CommitCause::WriteFailure => "write failed"@,
            CommitCause::VerifyMismatch => "verification failed"@,
            CommitCause::Other => "flashing failed"@,
        }
    }

    /// The words for the cause in a message.
    pub fn text(self) -> (text: &'static str)
        ensures
            text@ == self.cause_text(),
    {
        match self {
            CommitCause::EraseFailure => "erase failed",
            CommitCause::WriteFailure => "write failed",
            CommitCause::VerifyMismatch => "verification failed",
            CommitCause::Other => "flashing failed",
        }
    }
}

/// The failure of a commit, with its cause.
#[derive(Clone, Copy, PartialEq, Eq, Debug, Structural)]
pub struct CommitError {
    pub cause: CommitCause,
}

/// What the driver reports of a commit.
#[derive(Clone, Copy, PartialEq, Eq, Debug, Structural)]
pub enum CommitReport {
    /// Every write was made and, where asked for, verified.
    Committed,
    /// The commit failed for the given cause.
    Failed(CommitCause),
}

/// Judges a commit by the driver's report: it succeeded only where the
/// driver reports it committed, and every failure keeps its cause. A
/// mismatch on reading back is a failure like any other.
pub fn judge_commit(report: CommitReport) -> (judged: Result<(), CommitError>)
    ensures
        judged is Ok <==> report == CommitReport::Committed,
        report matches CommitReport::Failed(cause) ==> judged == Err::<(), CommitError>(
            CommitError { cause },
        ),
{
    match report {
        CommitReport::Committed => Ok(()),
        CommitReport::Failed(cause) => Err(CommitError { cause }),
    }
}

} // verus!
