//! The job-completion protocol.
//!
//! Every state-change or resource-mutation request answers with either an
//! immediate completion code or an "operation queued" code carrying a job
//! path.  A queued job must then be polled until its state reaches a
//! terminal value.  The decisions of that protocol live here as verified
//! functions; the I/O shell performs the fetches and sleeps between polls.
//! The reference behaviour places no bound on the number of polls, so a
//! caller wanting bounded latency must impose a timeout around the loop.

use vstd::prelude::*;
use vstd::string::StrSliceExecFns;
use vstd::string::StringExecFns;
use crate::error::Error;

verus! {

/// Return code that reports synchronous completion.
pub const RETURN_COMPLETED: u32 = 0;

/// Return code that reports a queued job whose path must be polled.
pub const RETURN_JOB_STARTED: u32 = 4096;

/// State of an asynchronous job.
#[derive(Debug, Clone, Copy, PartialEq, Eq, Structural)]
pub enum JobState {
    /// Job accepted but not yet started.
    New,
    /// Job is starting.
    Starting,
    /// Job is running.
    Running,
    /// Job finished successfully (terminal).
    Completed,
    /// Job stopped cleanly before finishing (terminal failure).
    Terminated,
    /// Job was killed (terminal failure).
    Killed,
    /// Job failed with an exception (terminal failure).
    Exception,
    /// The service that ran the job failed (terminal failure).
    ServiceError,
    /// Any code outside the defined subset.
    Unknown,
}

impl JobState {
    /// Numeric code of this job state.
    pub open spec fn spec_to_value(self) -> u16 {
        match self {
            JobState::New => 2,
            JobState::Starting => 3,
            JobState::Running => 4,
            JobState::Completed => 7,
            JobState::Terminated => 8,
            JobState::Killed => 9,
            JobState::Exception => 10,
            JobState::ServiceError => 11,
            JobState::Unknown => 0,
        }
    }

    /// Job state denoted by a code; unknown codes map to `Unknown`.
    pub open spec fn spec_from_value(value: u16) -> JobState {
        match value {
            2u16 => JobState::New,
            3u16 => JobState::Starting,
            4u16 => JobState::Running,
            7u16 => JobState::Completed,
            8u16 => JobState::Terminated,
            9u16 => JobState::Killed,
            10u16 => JobState::Exception,
            11u16 => JobState::ServiceError,
            _ => JobState::Unknown,
        }
    }

    /// Numeric code of this job state.
    pub fn to_value(&self) -> (v: u16)
        ensures
            v == self.spec_to_value(),
    {
        match self {
            JobState::New => 2,
            JobState::Starting => 3,
            JobState::Running => 4,
            JobState::Completed => 7,
            JobState::Terminated => 8,
            JobState::Killed => 9,
            JobState::Exception => 10,
            JobState::ServiceError => 11,
            JobState::Unknown => 0,
        }
    }

    /// Parse from a numeric code.
    pub fn from_value(value: u16) -> (r: Self)
        ensures
            r == Self::spec_from_value(value),
    {
        if value == 2 { JobState::New }
        else if value == 3 { JobState::Starting }
        else if value == 4 { JobState::Running }
        else if value == 7 { JobState::Completed }
        else if value == 8 { JobState::Terminated }
        else if value == 9 { JobState::Killed }
        else if value == 10 { JobState::Exception }
        else if value == 11 { JobState::ServiceError }
        else { JobState::Unknown }
    }

    /// This state ends the poll loop.
    pub open spec fn spec_is_terminal(self) -> bool {
        self is Completed || self is Terminated || self is Killed || self is Exception
            || self is ServiceError
    }

    /// Check if this state ends the poll loop.
    pub fn is_terminal(&self) -> (r: bool)
        ensures
            r == self.spec_is_terminal(),
    {
        matches!(
            self,
            JobState::Completed
                | JobState::Terminated
                | JobState::Killed
                | JobState::Exception
                | JobState::ServiceError
        )
    }

    /// This state is a terminal failure.
    pub open spec fn spec_is_failure(self) -> bool {
        self is Terminated || self is Killed || self is Exception || self is ServiceError
    }

    /// Check if this state is a terminal failure.
    pub fn is_failure(&self) -> (r: bool)
        ensures
            r == self.spec_is_failure(),
    {
        matches!(
            self,
            JobState::Terminated | JobState::Killed | JobState::Exception | JobState::ServiceError
        )
    }
}

/// Job-state codes round-trip on the defined subset; unknown codes fall back
/// to `Unknown`, never to a panic.
pub proof fn lemma_job_state_round_trip(s: JobState, v: u16)
    ensures
        JobState::spec_from_value(s.spec_to_value()) == s,
        JobState::spec_from_value(v) != JobState::Unknown
            ==> JobState::spec_from_value(v).spec_to_value() == v,
{
}

/// What one observation of a job document means for the poll loop.
#[derive(Debug)]
pub enum JobProgress {
    /// The job finished successfully; the operation is done.
    Completed,
    /// The job reached a failing terminal state; stop with this error.
    Failed(Error),
    /// The job has not reached a terminal state; poll again after the
    /// interval.
    Pending,
}

/// Classify one observation of a job document: state code 7 completes the
/// operation; codes 8 through 11 fail it, surfacing the job's error code and
/// description under the operation's name; every other code means the poll
/// loop continues.  Transient non-terminal states are never misclassified as
/// failures.
pub fn job_step(
    operation: &'static str,
    job_state: u16,
    error_code: u32,
    error_description: String,
) -> (r: JobProgress)
    ensures
        job_state == 7 ==> r is Completed,
        8 <= job_state <= 11 ==> (r matches JobProgress::Failed(e) && (e
            matches Error::JobFailed { operation: op, error_code: c, error_description: d }
            && op@ == operation@ && c == error_code && d@ == error_description@)),
        !(7 <= job_state <= 11) ==> r is Pending,
{
    if job_state == 7 {
        JobProgress::Completed
    } else if 8 <= job_state && job_state <= 11 {
        JobProgress::Failed(Error::JobFailed { operation, error_code, error_description })
    } else {
        JobProgress::Pending
    }
}

/// One tick of a caller-supplied poll budget: while budget remains it is
/// consumed and polling may continue; an exhausted budget ends the wait with
/// a timeout failure under the operation's name, so that no caller blocks
/// without bound on a job that never reaches a terminal state.
pub fn consume_poll_budget(operation: &'static str, remaining: &mut u32) -> (r: Result<(), Error>)
    ensures
        *old(remaining) > 0 ==> (r is Ok && *final(remaining) == *old(remaining) - 1),
        *old(remaining) == 0 ==> (*final(remaining) == 0 && (r matches Err(e) && (e
            matches Error::OperationFailed { operation: op, return_value: rv, message: m }
            && op@ == operation@ && rv == 0
            && m@ == "Timed out waiting for job completion"@))),
{
    if *remaining == 0 {
        return Err(Error::OperationFailed {
            operation,
            return_value: 0,
            message: String::from_str("Timed out waiting for job completion"),
        });
    }
    *remaining = *remaining - 1;
    Ok(())
}

/// How an operation's return code starts (or ends) the job protocol.
#[derive(Debug)]
pub enum OperationStart {
    /// The operation completed synchronously.
    Synchronous,
    /// The operation queued a job; poll the document at this path.
    Queued(String),
    /// The operation failed outright with this error.
    Failed(Error),
}

/// Classify an operation's return code: 0 completes synchronously; 4096
/// queues the job whose path came back (no path, or an empty one, counts as
/// synchronous completion); every other code fails the operation, carrying
/// the code under the operation's name.
pub fn classify_return(
    operation: &'static str,
    return_value: u32,
    job_path: Option<String>,
) -> (r: OperationStart)
    ensures
        return_value == RETURN_COMPLETED ==> r is Synchronous,
        return_value == RETURN_JOB_STARTED ==> (match job_path {
            Some(p) => if p@.len() > 0 {
                r matches OperationStart::Queued(q) && q@ == p@
            } else {
                r is Synchronous
            },
            None => r is Synchronous,
        }),
        return_value != RETURN_COMPLETED && return_value != RETURN_JOB_STARTED ==> (r
            matches OperationStart::Failed(e) && (e
            matches Error::OperationFailed { operation: op, return_value: rv, message: m }
            && op@ == operation@ && rv == return_value && m@ == operation@ + " failed"@)),
{
    if return_value == RETURN_COMPLETED {
        OperationStart::Synchronous
    } else if return_value == RETURN_JOB_STARTED {
        match job_path {
            Some(p) => {
                if p.as_str().unicode_len() > 0 {
                    OperationStart::Queued(p)
                } else {
                    OperationStart::Synchronous
                }
            },
            None => OperationStart::Synchronous,
        }
    } else {
        let mut message = String::from_str(operation);
        message.append(" failed");
        OperationStart::Failed(Error::OperationFailed { operation, return_value, message })
    }
}

} // verus!
