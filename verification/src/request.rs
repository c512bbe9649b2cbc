//! What an operation asks for, and what it is answered.
//!
//! An operation names one request at a time. The request is performed on
//! the calling thread, and the operation is handed the reply.

use vstd::prelude::*;
use vstd::string::StringExecFns;
use crate::ident::NsId;
use crate::text::{push_signed_decimal, signed_decimal};

verus! {

/// The error number `EINVAL`, with which the kernel refuses, among other
/// things, to unmount a path that nothing is mounted on.
pub const EINVAL: i32 = 22;

/// Why a request failed.
#[derive(Clone, Copy, Debug, PartialEq, Eq)]
pub enum Cause {
    /// The file to create is already there.
    AlreadyExists,
    /// The kernel refused, with this error number.
    Errno(i32),
    /// A failure that carries no error number.
    Other,
}

/// The answer to one request.
#[derive(Clone, Copy, Debug, PartialEq, Eq)]
pub enum Reply {
    /// Answer to `Exists`: whether the path is there.
    Found(bool),
    /// The request was carried out and has nothing to report.
    Done,
    /// Answer to `Open`: the descriptor's number and, where the descriptor's
    /// metadata could be read, the namespace's identity. The driver keeps the
    /// descriptor open for as long as a handle names it, and closes it if the
    /// operation ends in an error.
    Opened { fd: i32, id: Option<NsId> },
    /// The request failed.
    Failed(Cause),
}

/// One step to perform on the calling thread.
#[derive(Debug, PartialEq, Eq)]
pub enum Request {
    /// Report whether `path` exists.
    Exists { path: String },
    /// Create the directory `path` and its missing parents, with `mode`.
    CreateDir { path: String, mode: u32 },
    /// Create `path` as a new, empty file with `mode`; fail with
    /// `Cause::AlreadyExists` if it is already there.
    CreateFile { path: String, mode: u32 },
    /// Move the calling thread into a fresh, empty network namespace.
    Unshare,
    /// Open `path` for reading and read the descriptor's metadata.
    Open { path: String },
    /// Bind-mount `source` onto `target`.
    BindMount { source: String, target: String },
    /// Detach whatever is mounted on `path`, even if it is busy; fail with
    /// `Cause::Errno(EINVAL)` if nothing is mounted there.
    Unmount { path: String },
    /// Remove the file `path`.
    RemoveFile { path: String },
    /// Attach the calling thread to the network namespace that the open
    /// descriptor `fd` refers to.
    Attach { fd: i32 },
    /// Run the caller's unit of work; any reply marks its end. A driver
    /// whose work may panic catches the panic, answers, and lets the panic
    /// go on once the operation is finished, so that the thread still
    /// returns to its home namespace.
    Work,
}

/// A request with its paths as text.
pub enum RequestView {
    Exists { path: Seq<char> },
    CreateDir { path: Seq<char>, mode: u32 },
    CreateFile { path: Seq<char>, mode: u32 },
    Unshare,
    Open { path: Seq<char> },
    BindMount { source: Seq<char>, target: Seq<char> },
    Unmount { path: Seq<char> },
    RemoveFile { path: Seq<char> },
    Attach { fd: i32 },
    Work,
}

impl View for Request {
    type V = RequestView;

    open spec fn view(&self) -> RequestView {
        match self {
            Request::Exists { path } => RequestView::Exists { path: path@ },
            Request::CreateDir { path, mode } => RequestView::CreateDir { path: path@, mode: *mode },
            Request::CreateFile { path, mode } => RequestView::CreateFile {
                path: path@,
                mode: *mode,
            },
            Request::Unshare => RequestView::Unshare,
            Request::Open { path } => RequestView::Open { path: path@ },
            Request::BindMount { source, target } => RequestView::BindMount {
                source: source@,
                target: target@,
            },
            Request::Unmount { path } => RequestView::Unmount { path: path@ },
            Request::RemoveFile { path } => RequestView::RemoveFile { path: path@ },
            Request::Attach { fd } => RequestView::Attach { fd: *fd },
            Request::Work => RequestView::Work,
        }
    }
}

impl Clone for Request {
    fn clone(&self) -> (copy: Request)
        ensures
            copy@ == self@,
    {
        match self {
            Request::Exists { path } => Request::Exists { path: path.clone() },
            Request::CreateDir { path, mode } => Request::CreateDir {
                path: path.clone(),
                mode: *mode,
            },
            Request::CreateFile { path, mode } => Request::CreateFile {
                path: path.clone(),
                mode: *mode,
            },
            Request::Unshare => Request::Unshare,
            Request::Open { path } => Request::Open { path: path.clone() },
            Request::BindMount { source, target } => Request::BindMount {
                source: source.clone(),
                target: target.clone(),
            },
            Request::Unmount { path } => Request::Unmount { path: path.clone() },
            Request::RemoveFile { path } => Request::RemoveFile { path: path.clone() },
            Request::Attach { fd } => Request::Attach { fd: *fd },
            Request::Work => Request::Work,
        }
    }
}

/// The words that say what a request asks for.
pub open spec fn request_text(request: RequestView) -> Seq<char> {
    match request {
        RequestView::Exists { path } => "probing "@ + path,
        RequestView::CreateDir { path, .. } => "creating directory "@ + path,
        RequestView::CreateFile { path, .. } => "creating file "@ + path,
        RequestView::Unshare => "unsharing the network namespace"@,
        RequestView::Open { path } => "opening "@ + path,
        RequestView::BindMount { source, target } => "bind-mounting "@ + source + " onto "@
            + target,
        RequestView::Unmount { path } => "unmounting "@ + path,
        RequestView::RemoveFile { path } => "removing "@ + path,
        RequestView::Attach { fd } => "attaching to the namespace of descriptor "@
            + signed_decimal(fd as int),
        RequestView::Work => "running the work"@,
    }
}

/// The words that say why a request failed.
pub open spec fn cause_text(cause: Cause) -> Seq<char> {
    match cause {
        Cause::AlreadyExists => "the file exists"@,
        Cause::Errno(code) => "error "@ + signed_decimal(code as int),
        Cause::Other => "unknown cause"@,
    }
}

impl Cause {
    /// Says why a request failed.
    pub fn describe(&self) -> (text: String)
        ensures
            text@ == cause_text(*self),
    {
        match self {
            Cause::AlreadyExists => String::from_str("the file exists"),
            Cause::Errno(code) => {
                let mut text = String::from_str("error ");
                push_signed_decimal(&mut text, *code);
                text
            },
            Cause::Other => String::from_str("unknown cause"),
        }
    }
}

impl Request {
    /// Says what the request asks for, with the paths it names.
    pub fn describe(&self) -> (text: String)
        ensures
            text@ == request_text(self@),
    {
        match self {
            Request::Exists { path } => String::from_str("probing ").concat(path.as_str()),
            Request::CreateDir { path, .. } => String::from_str("creating directory ").concat(
                path.as_str(),
            ),
            Request::CreateFile { path, .. } => String::from_str("creating file ").concat(
                path.as_str(),
            ),
            Request::Unshare => String::from_str("unsharing the network namespace"),
            Request::Open { path } => String::from_str("opening ").concat(path.as_str()),
            Request::BindMount { source, target } => {
                let mut text = String::from_str("bind-mounting ");
                text.append(source.as_str());
                text.append(" onto ");
                text.append(target.as_str());
                text
            },
            Request::Unmount { path } => String::from_str("unmounting ").concat(path.as_str()),
            Request::RemoveFile { path } => String::from_str("removing ").concat(path.as_str()),
            Request::Attach { fd } => {
                let mut text = String::from_str("attaching to the namespace of descriptor ");
                push_signed_decimal(&mut text, *fd);
                text
            },
            Request::Work => String::from_str("running the work"),
        }
    }
}

} // verus!
