//! The failures that the pipeline reports, and the stage in which one arose.

use vstd::prelude::*;

verus! {

/// Why an operation did not succeed.
#[derive(Clone, Copy, Debug, PartialEq, Eq, Structural)]
pub enum Error {
    /// The credential is missing, invalid or expired.
    Auth,
    /// The remote source could not be reached in time, or answered with a
    /// failure that is no matter of the credential.
    Network,
    /// The remote answer does not have the expected shape.
    Parse,
    /// The stored state is present but cannot be used.
    CorruptState,
    /// A name stands for more than one course.
    AmbiguousSelection,
    /// The course has no publish record.
    NotPublished,
    /// No course goes by that identifier or name.
    NotFound,
    /// An artifact or the state could not be read or written.
    Io,
    /// The request names nothing to act on.
    InvalidRequest,
}

/// The most retries that a stage spends on one request.
pub const MAX_RETRIES: u32 = 2;

/// The milliseconds by which the wait grows from one retry to the next.
pub const BACKOFF_STEP_MILLIS: u64 = 500;

/// The wait before the retry with this number, counted from one: it grows
/// by one step with every retry.
pub open spec fn backoff_of(retry: u32) -> int {
    BACKOFF_STEP_MILLIS * retry
}

/// Computes the wait before a retry, in milliseconds.
pub fn backoff_millis(retry: u32) -> (wait: u64)
    ensures
        wait == backoff_of(retry),
{
    BACKOFF_STEP_MILLIS * (retry as u64)
}

impl Error {
    /// Only a failure of the network may go away by itself.
    pub open spec fn transient(self) -> bool {
        self == Error::Network
    }

    /// Whether trying again can change the outcome.
    pub fn is_transient(&self) -> (r: bool)
        ensures
            r == self.transient(),
    {
        match self {
            Error::Network => true,
            _ => false,
        }
    }

    /// Whether a stage that has already retried `retries` times tries once
    /// more: only after a transient failure, and only while retries are left.
    pub fn should_retry(&self, retries: u32) -> (r: bool)
        ensures
            r == (self.transient() && retries < MAX_RETRIES),
    {
        self.is_transient() && retries < MAX_RETRIES
    }

    /// Whether the failure ends the whole run. A failure that concerns one
    /// course or one record only is reported and the run goes on.
    pub open spec fn fatal(self) -> bool {
        self == Error::Auth || self == Error::Parse || self == Error::CorruptState
    }

    /// Decides `fatal`.
    pub fn is_fatal(&self) -> (r: bool)
        ensures
            r == self.fatal(),
    {
        match self {
            Error::Auth | Error::Parse | Error::CorruptState => true,
            _ => false,
        }
    }
}

/// The stage of the pipeline in which a failure arose.
#[derive(Clone, Copy, Debug, PartialEq, Eq, Structural)]
pub enum Context {
    Sync,
    CalendarLs,
    Publish,
    Unpublish,
}

/// A failure together with the stage that met it.
#[derive(Clone, Copy, Debug, PartialEq, Eq, Structural)]
pub struct Failure {
    pub context: Context,
    pub error: Error,
}

impl Context {
    /// Attaches this stage to a failure.
    pub fn wrap(self, error: Error) -> (f: Failure)
        ensures
            f.context == self,
            f.error == error,
    {
        Failure { context: self, error }
    }
}

} // verus!
