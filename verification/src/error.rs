//! The failures that the job engine reports.

use vstd::prelude::*;

verus! {

/// Why an operation of the job engine did not succeed.
#[derive(Clone, Copy, Debug, PartialEq, Eq, Structural)]
pub enum JobError {
    /// No process or job has the identifier.
    NotFound,
    /// A job with the identifier exists already.
    Conflict,
    /// The job's status is outside the allowed set, the target cannot be
    /// reached from it, or the payload does not suit the target.
    InvalidTransition,
    /// Results were asked for before the job was successful.
    ResultsNotReady,
    /// The request is malformed.
    ValidationError,
    /// The backing store could not be reached.
    StorageUnavailable,
}

impl JobError {
    /// The HTTP status class under which the failure is surfaced.
    pub open spec fn code(self) -> u16 {
        match self {
            JobError::NotFound => 404,
            JobError::Conflict => 409,
            JobError::InvalidTransition => 409,
            JobError::ResultsNotReady => 409,
            JobError::ValidationError => 400,
            JobError::StorageUnavailable => 503,
        }
    }

    pub fn status_code(&self) -> (r: u16)
        ensures
            r == self.code(),
            400 <= r < 600,
    {
        match self {
            JobError::NotFound => 404,
            JobError::Conflict => 409,
            JobError::InvalidTransition => 409,
            JobError::ResultsNotReady => 409,
            JobError::ValidationError => 400,
            JobError::StorageUnavailable => 503,
        }
    }

    /// Whether a caller may expect the same request to succeed later
    /// without change.
    pub fn is_retryable(&self) -> (r: bool)
        ensures
            r == (*self == JobError::StorageUnavailable),
    {
        match self {
            JobError::StorageUnavailable => true,
            _ => false,
        }
    }
}

} // verus!
