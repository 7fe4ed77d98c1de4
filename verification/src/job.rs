//! The result that is reported for a job.

use vstd::prelude::*;

verus! {

/// How a job ended.
#[derive(Debug, Clone, Copy, PartialEq, Eq, Structural)]
pub enum JobStatus {
    /// The engine rendered the element.
    Completed,
    /// The job failed; the result carries the reason.
    Error,
}

/// The status of a finished job, with the reason where it failed.
#[derive(Debug, Clone, PartialEq, Eq)]
pub struct JobResult {
    pub status: JobStatus,
    pub message: Option<String>,
}

/// A job result with its message as plain text.
pub struct JobResultView {
    pub status: JobStatus,
    pub message: Option<Seq<char>>,
}

impl View for JobResult {
    type V = JobResultView;

    open spec fn view(&self) -> JobResultView {
        JobResultView {
            status: self.status,
            message: match self.message {
                Some(text) => Some(text@),
                None => None,
            },
        }
    }
}

impl JobResultView {
    /// The result of a job that succeeded: no message.
    pub open spec fn completed() -> JobResultView {
        JobResultView { status: JobStatus::Completed, message: None }
    }

    /// The result of a job that failed for the reason `message`.
    pub open spec fn error(message: Seq<char>) -> JobResultView {
        JobResultView { status: JobStatus::Error, message: Some(message) }
    }
}

impl JobResult {
    /// The result of a job that succeeded.
    pub fn completed() -> (r: JobResult)
        ensures
            r@ == JobResultView::completed(),
    {
        JobResult { status: JobStatus::Completed, message: None }
    }

    /// The result of a job that failed for the reason `message`.
    pub fn error(message: String) -> (r: JobResult)
        ensures
            r@ == JobResultView::error(message@),
    {
        JobResult { status: JobStatus::Error, message: Some(message) }
    }
}

} // verus!
