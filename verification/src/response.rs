//! The result handed back to the caller of a workflow.

use vstd::prelude::*;

verus! {

/// The status that accompanies a result whose request was served.
pub const STATUS_OK: u16 = 200;

/// The status that accompanies a result whose request was at fault.
pub const STATUS_BAD_REQUEST: u16 = 400;

/// The status that accompanies a result where probe or session failed.
pub const STATUS_INTERNAL_ERROR: u16 = 500;

/// The stable categories under which a failure is surfaced to the caller.
#[derive(Clone, Copy, PartialEq, Eq, Debug, Structural)]
pub enum FailureCategory {
    /// The target identity is unrecognised or unsupported for the operation.
    InvalidTarget,
    /// The device's protection state cannot be safely interpreted or cleared.
    InvalidProtectionLevel,
    /// The debug session could not be established.
    SessionError,
    /// The probe or its transport failed.
    DebugProbeError,
    /// The declared image format is not one of the recognised formats.
    UnsupportedFormat,
    /// The firmware image is malformed.
    ImageParseError,
    /// Erasing, writing or verifying the flash failed.
    CommitError,
    /// The requested probe was not found or is already claimed.
    ProbeUnavailable,
}

/// How a workflow ended.
#[derive(Clone, Copy, PartialEq, Eq, Debug, Structural)]
pub enum Outcome {
    Success,
    Failure(FailureCategory),
}

/// The only value that a workflow returns to its caller: an outcome, a
/// transport status, a message for a human reader and optional details.
#[derive(Debug)]
pub struct ProvisioningResult<T> {
    pub outcome: Outcome,
    pub status: u16,
    pub message: String,
    pub details: Option<T>,
}

impl<T> ProvisioningResult<T> {
    /// A success with the given message and no details.
    pub fn success(message: String) -> (result: Self)
        ensures
            result.outcome == Outcome::Success,
            result.status == STATUS_OK,
            result.message == message,
            result.details is None,
    {
        ProvisioningResult {
            outcome: Outcome::Success,
            status: STATUS_OK,
            message,
            details: None,
        }
    }

    /// A failure of the given category with the given status and message and
    /// no details.
    pub fn failure(category: FailureCategory, status: u16, message: String) -> (result: Self)
        ensures
            result.outcome == Outcome::Failure(category),
            result.status == status,
            result.message == message,
            result.details is None,
    {
        ProvisioningResult {
            outcome: Outcome::Failure(category),
            status,
            message,
            details: None,
        }
    }

    /// The same result carrying the given details.
    pub fn with_details(self, details: T) -> (result: Self)
        ensures
            result.outcome == self.outcome,
            result.status == self.status,
            result.message == self.message,
            result.details == Some(details),
    {
        ProvisioningResult {
            outcome: self.outcome,
            status: self.status,
            message: self.message,
            details: Some(details),
        }
    }

    /// Whether the workflow succeeded.
    pub fn is_success(&self) -> (success: bool)
        ensures
            success == (self.outcome == Outcome::Success),
    {
        match self.outcome {
            Outcome::Success => true,
            Outcome::Failure(_) => false,
        }
    }
}

} // verus!
