//! Failures that the job-control surface reports to its callers.

use vstd::prelude::*;

verus! {

/// The kind of a failure, so that a caller can tell whether to retry.
#[derive(Clone, Copy, Debug, PartialEq, Eq, Structural)]
pub enum ErrorKind {
    /// An identifier in the request is not a well-formed UUID.
    InvalidArgument,
    /// The worker refused the request because the owner does not match.
    Unauthorized,
    /// The worker failed to carry out the request.
    WorkerFailure,
    /// Reading a job's output failed in the middle of a stream.
    StreamReadFailure,
}

/// A failure returned to a caller: its kind and a message for humans.
#[derive(Clone, Debug, PartialEq, Eq)]
pub struct ServiceError {
    pub kind: ErrorKind,
    pub message: String,
}

/// The mathematical content of a [`ServiceError`].
pub struct ServiceErrorView {
    pub kind: ErrorKind,
    pub message: Seq<char>,
}

impl View for ServiceError {
    type V = ServiceErrorView;

    open spec fn view(&self) -> ServiceErrorView {
        ServiceErrorView { kind: self.kind, message: self.message@ }
    }
}

impl ServiceError {
    /// Builds a failure of the given kind whose message is `prefix` followed by `detail`.
    pub fn with_detail(kind: ErrorKind, prefix: &str, detail: &str) -> (e: ServiceError)
        ensures
            e@ == (ServiceErrorView { kind, message: prefix@ + detail@ }),
    {
        let mut message = String::from_str(prefix);
        message.append(detail);
        ServiceError { kind, message }
    }

    /// The kind of this failure.
    pub fn kind(&self) -> (k: ErrorKind)
        ensures
            k == self@.kind,
    {
        self.kind
    }

    /// The message of this failure.
    pub fn message(&self) -> (m: &str)
        ensures
            m@ == self@.message,
    {
        self.message.as_str()
    }
}

} // verus!
