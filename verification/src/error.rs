//! Why an operation did not do what was asked.

use vstd::prelude::*;
use vstd::string::StringExecFns;
use crate::request::{cause_text, request_text, Cause, Reply, Request, RequestView};

verus! {

/// The error that ends an operation. No request is retried, and nothing
/// that was done before the failing request is undone.
#[derive(Debug, PartialEq, Eq)]
pub enum NetnsError {
    /// The name is taken: the placeholder at `path` was already there, and
    /// nothing was allocated.
    NameConflict { path: String },
    /// `request` could not be carried out.
    Failed { request: Request, cause: Cause },
    /// `request` was answered with a reply that does not fit it.
    Unexpected { request: Request },
    /// The operation was opened for another thread: `source` is not the
    /// namespace file of the thread that was to run it. Nothing was asked.
    WrongThread { source: String },
}

/// An error with its paths as text.
pub enum NetnsErrorView {
    NameConflict { path: Seq<char> },
    Failed { request: RequestView, cause: Cause },
    Unexpected { request: RequestView },
    WrongThread { source: Seq<char> },
}

impl View for NetnsError {
    type V = NetnsErrorView;

    open spec fn view(&self) -> NetnsErrorView {
        match self {
            NetnsError::NameConflict { path } => NetnsErrorView::NameConflict { path: path@ },
            NetnsError::Failed { request, cause } => NetnsErrorView::Failed {
                request: request@,
                cause: *cause,
            },
            NetnsError::Unexpected { request } => NetnsErrorView::Unexpected { request: request@ },
            NetnsError::WrongThread { source } => NetnsErrorView::WrongThread {
                source: source@,
            },
        }
    }
}

/// The error for a reply that does not let `request` count as done: the
/// failure that was reported, or the misfit of any other reply.
pub open spec fn refusal(request: RequestView, reply: Reply) -> NetnsErrorView {
    match reply {
        Reply::Failed(cause) => NetnsErrorView::Failed { request, cause },
        _ => NetnsErrorView::Unexpected { request },
    }
}

impl NetnsError {
    /// Builds the error for a reply that does not let `request` count as done.
    pub fn refuse(request: Request, reply: Reply) -> (error: NetnsError)
        ensures
            error@ == refusal(request@, reply),
    {
        match reply {
            Reply::Failed(cause) => NetnsError::Failed { request, cause },
            _ => NetnsError::Unexpected { request },
        }
    }
}

/// The message of an error: what was asked for, with its paths, and why it
/// did not come about.
pub open spec fn error_text(error: NetnsErrorView) -> Seq<char> {
    match error {
        NetnsErrorView::NameConflict { path } => "the name is taken: "@ + path
            + " already exists"@,
        NetnsErrorView::Failed { request, cause } => request_text(request) + " failed: "@
            + cause_text(cause),
        NetnsErrorView::Unexpected { request } => request_text(request)
            + " was answered out of turn"@,
        NetnsErrorView::WrongThread { source } => "the operation was opened for another thread: "@
            + source + " is not the namespace file of this thread"@,
    }
}

impl NetnsError {
    /// The message of the error.
    pub fn message(&self) -> (text: String)
        ensures
            text@ == error_text(self@),
    {
        match self {
            NetnsError::NameConflict { path } => {
                let mut text = String::from_str("the name is taken: ");
                text.append(path.as_str());
                text.append(" already exists");
                text
            },
            NetnsError::Failed { request, cause } => {
                let mut text = request.describe();
                text.append(" failed: ");
                text.append(cause.describe().as_str());
                text
            },
            NetnsError::Unexpected { request } => {
                let mut text = request.describe();
                text.append(" was answered out of turn");
                text
            },
            NetnsError::WrongThread { source } => {
                let mut text = String::from_str("the operation was opened for another thread: ");
                text.append(source.as_str());
                text.append(" is not the namespace file of this thread");
                text
            },
        }
    }
}

} // verus!
