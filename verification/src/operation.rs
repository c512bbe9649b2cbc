//! The operations on namespaces, each as a run of requests.
//!
//! An operation is a value. It names the request to perform next, takes the
//! reply, and so moves on until it is finished. Every request of one
//! operation is performed on one OS thread, in the order asked, and
//! operations on one thread are run one after the other.

use vstd::prelude::*;
use vstd::string::StringExecFns;
use crate::error::{refusal, NetnsError, NetnsErrorView};
use crate::handle::{Netns, NetnsView};
use crate::ident::NsId;
use crate::path::{
    default_root, entry_path, task_ns_path, thread_ns_path, Registry, PLACEHOLDER_MODE,
    REGISTRY_MODE,
};
use crate::request::{Cause, Reply, Request, RequestView, EINVAL};
use crate::task::Task;

verus! {

/// What a finished operation hands to its caller.
#[derive(Debug)]
pub enum Outcome {
    /// The operation has nothing to hand over.
    Done,
    /// The handle that was allocated or opened.
    Handle(Netns),
    /// The handle that a lookup found, or `None` where no namespace is there.
    Lookup(Option<Netns>),
}

/// An outcome with its handle's path as text.
pub enum OutcomeView {
    Done,
    Handle(NetnsView),
    Lookup(Option<NetnsView>),
}

impl View for Outcome {
    type V = OutcomeView;

    open spec fn view(&self) -> OutcomeView {
        match self {
            Outcome::Done => OutcomeView::Done,
            Outcome::Handle(handle) => OutcomeView::Handle(handle@),
            Outcome::Lookup(found) => OutcomeView::Lookup(
                match found {
                    Some(handle) => Some(handle@),
                    None => None,
                },
            ),
        }
    }
}

/// The state of one operation. Each state but the last waits for the reply
/// to one request.
#[derive(Debug)]
pub enum Operation {
    /// Allocating a named namespace: is the registry directory there?
    ProbingRoot { root: String, entry: String, source: String },
    /// Allocating a named namespace: creating the registry directory.
    CreatingRoot { root: String, entry: String, source: String },
    /// Allocating a named namespace: creating the placeholder, exclusively.
    Reserving { entry: String, source: String },
    /// Allocating a namespace: moving the thread into a fresh one.
    /// `bind_to` is the placeholder to bind it to, if it is to be named.
    Unsharing { source: String, bind_to: Option<String> },
    /// Opening the namespace file of the thread.
    Opening { source: String, bind_to: Option<String> },
    /// Allocating a named namespace: binding it to the placeholder.
    Binding { fd: i32, id: Option<NsId>, source: String, entry: String },
    /// Deleting a named namespace: is the placeholder there?
    ProbingEntry { entry: String },
    /// Deleting a named namespace: detaching the mount.
    Detaching { entry: String },
    /// Deleting a named namespace: removing the placeholder.
    Removing { entry: String },
    /// Looking a namespace up by path.
    LookingUp { path: String },
    /// Attaching the thread to a namespace.
    Attaching { fd: i32 },
    /// Scoped work: attaching the thread to the target namespace.
    Entering { home: i32, target: i32 },
    /// Scoped work: the work is running in the target namespace.
    Working { home: i32 },
    /// Scoped work: attaching the thread to its home namespace again.
    Leaving { home: i32 },
    /// Nothing more to ask.
    Finished(Result<Outcome, NetnsError>),
}

/// An operation's state with its paths as text.
pub enum OperationView {
    ProbingRoot { root: Seq<char>, entry: Seq<char>, source: Seq<char> },
    CreatingRoot { root: Seq<char>, entry: Seq<char>, source: Seq<char> },
    Reserving { entry: Seq<char>, source: Seq<char> },
    Unsharing { source: Seq<char>, bind_to: Option<Seq<char>> },
    Opening { source: Seq<char>, bind_to: Option<Seq<char>> },
    Binding { fd: i32, id: Option<NsId>, source: Seq<char>, entry: Seq<char> },
    ProbingEntry { entry: Seq<char> },
    Detaching { entry: Seq<char> },
    Removing { entry: Seq<char> },
    LookingUp { path: Seq<char> },
    Attaching { fd: i32 },
    Entering { home: i32, target: i32 },
    Working { home: i32 },
    Leaving { home: i32 },
    Finished(Result<OutcomeView, NetnsErrorView>),
}

impl View for Operation {
    type V = OperationView;

    open spec fn view(&self) -> OperationView {
        match self {
            Operation::ProbingRoot { root, entry, source } => OperationView::ProbingRoot {
                root: root@,
                entry: entry@,
                source: source@,
            },
            Operation::CreatingRoot { root, entry, source } => OperationView::CreatingRoot {
                root: root@,
                entry: entry@,
                source: source@,
            },
            Operation::Reserving { entry, source } => OperationView::Reserving {
                entry: entry@,
                source: source@,
            },
            Operation::Unsharing { source, bind_to } => OperationView::Unsharing {
                source: source@,
                bind_to: match bind_to {
                    Some(entry) => Some(entry@),
                    None => None,
                },
            },
            Operation::Opening { source, bind_to } => OperationView::Opening {
                source: source@,
                bind_to: match bind_to {
                    Some(entry) => Some(entry@),
                    None => None,
                },
            },
            Operation::Binding { fd, id, source, entry } => OperationView::Binding {
                fd: *fd,
                id: *id,
                source: source@,
                entry: entry@,
            },
            Operation::ProbingEntry { entry } => OperationView::ProbingEntry { entry: entry@ },
            Operation::Detaching { entry } => OperationView::Detaching { entry: entry@ },
            Operation::Removing { entry } => OperationView::Removing { entry: entry@ },
            Operation::LookingUp { path } => OperationView::LookingUp { path: path@ },
            Operation::Attaching { fd } => OperationView::Attaching { fd: *fd },
            Operation::Entering { home, target } => OperationView::Entering {
                home: *home,
                target: *target,
            },
            Operation::Working { home } => OperationView::Working { home: *home },
            Operation::Leaving { home } => OperationView::Leaving { home: *home },
            Operation::Finished(result) => OperationView::Finished(
                match result {
                    Ok(outcome) => Ok(outcome@),
                    Err(error) => Err(error@),
                },
            ),
        }
    }
}

/// The request that an operation waits on; `None` once it is finished.
pub open spec fn pending(op: OperationView) -> Option<RequestView> {
    match op {
        OperationView::ProbingRoot { root, .. } => Some(RequestView::Exists { path: root }),
        OperationView::CreatingRoot { root, .. } => Some(
            RequestView::CreateDir { path: root, mode: REGISTRY_MODE },
        ),
        OperationView::Reserving { entry, .. } => Some(
            RequestView::CreateFile { path: entry, mode: PLACEHOLDER_MODE },
        ),
        OperationView::Unsharing { .. } => Some(RequestView::Unshare),
        OperationView::Opening { source, .. } => Some(RequestView::Open { path: source }),
        OperationView::Binding { source, entry, .. } => Some(
            RequestView::BindMount { source, target: entry },
        ),
        OperationView::ProbingEntry { entry } => Some(RequestView::Exists { path: entry }),
        OperationView::Detaching { entry } => Some(RequestView::Unmount { path: entry }),
        OperationView::Removing { entry } => Some(RequestView::RemoveFile { path: entry }),
        OperationView::LookingUp { path } => Some(RequestView::Open { path }),
        OperationView::Attaching { fd } => Some(RequestView::Attach { fd }),
        OperationView::Entering { target, .. } => Some(RequestView::Attach { fd: target }),
        OperationView::Working { .. } => Some(RequestView::Work),
        OperationView::Leaving { home } => Some(RequestView::Attach { fd: home }),
        OperationView::Finished(_) => None,
    }
}

/// The namespace file of the thread that `op` was opened for, where `op` is
/// still to read it: an operation that allocates a namespace or opens the
/// current one goes wrong silently on any other thread.
pub open spec fn thread_file(op: OperationView) -> Option<Seq<char>> {
    match op {
        OperationView::ProbingRoot { source, .. }
        | OperationView::CreatingRoot { source, .. }
        | OperationView::Reserving { source, .. }
        | OperationView::Unsharing { source, .. }
        | OperationView::Opening { source, .. }
        | OperationView::Binding { source, .. } => Some(source),
        _ => None,
    }
}

/// Whether `op` may run on `task`: it reads no thread's namespace file, or
/// the file of that very thread.
pub open spec fn runs_on(op: OperationView, task: Task) -> bool {
    match thread_file(op) {
        Some(source) => source == thread_ns_path(task.pid as int, task.tid as int),
        None => true,
    }
}

/// The state that ends `op` because `reply` does not let its pending request
/// count as done.
pub open spec fn stopped(op: OperationView, reply: Reply) -> OperationView {
    OperationView::Finished(Err(refusal(pending(op)->0, reply)))
}

/// The state after the pending request has been answered with `reply`.
///
/// A request that fails ends the operation with an error that names the
/// request, with four exceptions: a placeholder that is already there is a
/// name conflict; a path that cannot be opened is a lookup that found
/// nothing; an entry that has nothing mounted on it is a bare placeholder,
/// which a delete still removes; and scoped work, however it ends, is
/// followed by the return to the home namespace. A finished operation stays
/// as it is.
pub open spec fn step(op: OperationView, reply: Reply) -> OperationView {
    match op {
        OperationView::ProbingRoot { root, entry, source } => match reply {
            Reply::Found(true) => OperationView::Reserving { entry, source },
            Reply::Found(false) => OperationView::CreatingRoot { root, entry, source },
            _ => stopped(op, reply),
        },
        OperationView::CreatingRoot { root, entry, source } => match reply {
            Reply::Done => OperationView::Reserving { entry, source },
            _ => stopped(op, reply),
        },
        OperationView::Reserving { entry, source } => match reply {
            Reply::Done => OperationView::Unsharing { source, bind_to: Some(entry) },
            Reply::Failed(Cause::AlreadyExists) => OperationView::Finished(
                Err(NetnsErrorView::NameConflict { path: entry }),
            ),
            _ => stopped(op, reply),
        },
        OperationView::Unsharing { source, bind_to } => match reply {
            Reply::Done => OperationView::Opening { source, bind_to },
            _ => stopped(op, reply),
        },
        OperationView::Opening { source, bind_to } => match reply {
            Reply::Opened { fd, id } => match bind_to {
                Some(entry) => OperationView::Binding { fd, id, source, entry },
                None => OperationView::Finished(
                    Ok(OutcomeView::Handle(NetnsView { fd, id, path: None })),
                ),
            },
            _ => stopped(op, reply),
        },
        OperationView::Binding { fd, id, source, entry } => match reply {
            Reply::Done => OperationView::Finished(
                Ok(OutcomeView::Handle(NetnsView { fd, id, path: Some(entry) })),
            ),
            _ => stopped(op, reply),
        },
        OperationView::ProbingEntry { entry } => match reply {
            Reply::Found(true) => OperationView::Detaching { entry },
            Reply::Found(false) => OperationView::Finished(Ok(OutcomeView::Done)),
            _ => stopped(op, reply),
        },
        OperationView::Detaching { entry } => match reply {
            Reply::Done => OperationView::Removing { entry },
            Reply::Failed(Cause::Errno(code)) if code == EINVAL => OperationView::Removing {
                entry,
            },
            _ => stopped(op, reply),
        },
        OperationView::Removing { entry } => match reply {
            Reply::Done => OperationView::Finished(Ok(OutcomeView::Done)),
            _ => stopped(op, reply),
        },
        OperationView::LookingUp { path } => match reply {
            Reply::Opened { fd, id } => OperationView::Finished(
                Ok(OutcomeView::Lookup(Some(NetnsView { fd, id, path: Some(path) }))),
            ),
            Reply::Failed(_) => OperationView::Finished(Ok(OutcomeView::Lookup(None))),
            _ => stopped(op, reply),
        },
        OperationView::Attaching { fd } => match reply {
            Reply::Done => OperationView::Finished(Ok(OutcomeView::Done)),
            _ => stopped(op, reply),
        },
        OperationView::Entering { home, target } => match reply {
            Reply::Done => OperationView::Working { home },
            _ => stopped(op, reply),
        },
        OperationView::Working { home } => OperationView::Leaving { home },
        OperationView::Leaving { home } => match reply {
            Reply::Done => OperationView::Finished(Ok(OutcomeView::Done)),
            _ => stopped(op, reply),
        },
        OperationView::Finished(result) => op,
    }
}

/// Where allocating an anonymous namespace for `task` starts: the thread is
/// moved into a fresh namespace, then its namespace file is opened.
pub open spec fn allocating(task: Task) -> OperationView {
    OperationView::Unsharing {
        source: thread_ns_path(task.pid as int, task.tid as int),
        bind_to: None,
    }
}

/// Where allocating the namespace called `name` for `task` in the registry
/// at `root` starts: the registry directory is seen to, the placeholder is
/// created exclusively, the namespace is allocated, and it is bound to the
/// placeholder.
pub open spec fn allocating_named(root: Seq<char>, name: Seq<char>, task: Task) -> OperationView {
    OperationView::ProbingRoot {
        root,
        entry: entry_path(root, name),
        source: thread_ns_path(task.pid as int, task.tid as int),
    }
}

/// Where deleting the namespace called `name` in the registry at `root`
/// starts.
pub open spec fn deleting_named(root: Seq<char>, name: Seq<char>) -> OperationView {
    OperationView::ProbingEntry { entry: entry_path(root, name) }
}

/// Where looking up the namespace at `path` starts.
pub open spec fn looking_up(path: Seq<char>) -> OperationView {
    OperationView::LookingUp { path }
}

/// Where opening the namespace that `task` is attached to starts.
pub open spec fn opening_current(task: Task) -> OperationView {
    OperationView::Opening {
        source: thread_ns_path(task.pid as int, task.tid as int),
        bind_to: None,
    }
}

/// Where attaching the calling thread to the namespace of `handle` starts.
pub open spec fn attaching(handle: NetnsView) -> OperationView {
    OperationView::Attaching { fd: handle.fd }
}

/// Where running work in the namespace of `target`, to return to that of
/// `home` afterwards, starts.
pub open spec fn scoped(home: NetnsView, target: NetnsView) -> OperationView {
    OperationView::Entering { home: home.fd, target: target.fd }
}

impl Operation {
    /// The request to perform next, or `None` once the operation is
    /// finished.
    pub fn request(&self) -> (request: Option<Request>)
        ensures
            match request {
                Some(request) => pending(self@) == Some(request@),
                None => pending(self@) is None,
            },
    {
        match self {
            Operation::ProbingRoot { root, .. } => Some(Request::Exists { path: root.clone() }),
            Operation::CreatingRoot { root, .. } => Some(
                Request::CreateDir { path: root.clone(), mode: REGISTRY_MODE },
            ),
            Operation::Reserving { entry, .. } => Some(
                Request::CreateFile { path: entry.clone(), mode: PLACEHOLDER_MODE },
            ),
            Operation::Unsharing { .. } => Some(Request::Unshare),
            Operation::Opening { source, .. } => Some(Request::Open { path: source.clone() }),
            Operation::Binding { source, entry, .. } => Some(
                Request::BindMount { source: source.clone(), target: entry.clone() },
            ),
            Operation::ProbingEntry { entry } => Some(Request::Exists { path: entry.clone() }),
            Operation::Detaching { entry } => Some(Request::Unmount { path: entry.clone() }),
            Operation::Removing { entry } => Some(Request::RemoveFile { path: entry.clone() }),
            Operation::LookingUp { path } => Some(Request::Open { path: path.clone() }),
            Operation::Attaching { fd } => Some(Request::Attach { fd: *fd }),
            Operation::Entering { target, .. } => Some(Request::Attach { fd: *target }),
            Operation::Working { .. } => Some(Request::Work),
            Operation::Leaving { home } => Some(Request::Attach { fd: *home }),
            Operation::Finished(_) => None,
        }
    }

    /// Ends the operation on a reply that does not let the pending request
    /// count as done.
    fn stop(self, reply: Reply) -> (next: Operation)
        requires
            pending(self@) is Some,
        ensures
            next@ == stopped(self@, reply),
    {
        match self.request() {
            Some(request) => Operation::Finished(Err(NetnsError::refuse(request, reply))),
            None => self,
        }
    }

    /// Takes the reply to the pending request and moves on.
    pub fn advance(self, reply: Reply) -> (next: Operation)
        ensures
            next@ == step(self@, reply),
    {
        match self {
            Operation::ProbingRoot { root, entry, source } => match reply {
                Reply::Found(true) => Operation::Reserving { entry, source },
                Reply::Found(false) => Operation::CreatingRoot { root, entry, source },
                _ => Operation::ProbingRoot { root, entry, source }.stop(reply),
            },
            Operation::CreatingRoot { root, entry, source } => match reply {
                Reply::Done => Operation::Reserving { entry, source },
                _ => Operation::CreatingRoot { root, entry, source }.stop(reply),
            },
            Operation::Reserving { entry, source } => match reply {
                Reply::Done => Operation::Unsharing { source, bind_to: Some(entry) },
                Reply::Failed(Cause::AlreadyExists) => Operation::Finished(
                    Err(NetnsError::NameConflict { path: entry }),
                ),
                _ => Operation::Reserving { entry, source }.stop(reply),
            },
            Operation::Unsharing { source, bind_to } => match reply {
                Reply::Done => Operation::Opening { source, bind_to },
                _ => Operation::Unsharing { source, bind_to }.stop(reply),
            },
            Operation::Opening { source, bind_to } => match reply {
                Reply::Opened { fd, id } => match bind_to {
                    Some(entry) => Operation::Binding { fd, id, source, entry },
                    None => Operation::Finished(
                        Ok(Outcome::Handle(Netns::from_descriptor(fd, id, None))),
                    ),
                },
                _ => Operation::Opening { source, bind_to }.stop(reply),
            },
            Operation::Binding { fd, id, source, entry } => match reply {
                Reply::Done => Operation::Finished(
                    Ok(Outcome::Handle(Netns::from_descriptor(fd, id, Some(entry)))),
                ),
                _ => Operation::Binding { fd, id, source, entry }.stop(reply),
            },
            Operation::ProbingEntry { entry } => match reply {
                Reply::Found(true) => Operation::Detaching { entry },
                Reply::Found(false) => Operation::Finished(Ok(Outcome::Done)),
                _ => Operation::ProbingEntry { entry }.stop(reply),
            },
            Operation::Detaching { entry } => match reply {
                Reply::Done => Operation::Removing { entry },
                Reply::Failed(Cause::Errno(code)) if code == EINVAL => Operation::Removing {
                    entry,
                },
                _ => Operation::Detaching { entry }.stop(reply),
            },
            Operation::Removing { entry } => match reply {
                Reply::Done => Operation::Finished(Ok(Outcome::Done)),
                _ => Operation::Removing { entry }.stop(reply),
            },
            Operation::LookingUp { path } => match reply {
                Reply::Opened { fd, id } => Operation::Finished(
                    Ok(Outcome::Lookup(Some(Netns::from_descriptor(fd, id, Some(path))))),
                ),
                Reply::Failed(_) => Operation::Finished(Ok(Outcome::Lookup(None))),
                _ => Operation::LookingUp { path }.stop(reply),
            },
            Operation::Attaching { fd } => match reply {
                Reply::Done => Operation::Finished(Ok(Outcome::Done)),
                _ => Operation::Attaching { fd }.stop(reply),
            },
            Operation::Entering { home, target } => match reply {
                Reply::Done => Operation::Working { home },
                _ => Operation::Entering { home, target }.stop(reply),
            },
            Operation::Working { home } => Operation::Leaving { home },
            Operation::Leaving { home } => match reply {
                Reply::Done => Operation::Finished(Ok(Outcome::Done)),
                _ => Operation::Leaving { home }.stop(reply),
            },
            Operation::Finished(result) => Operation::Finished(result),
        }
    }

    /// The namespace file of the thread that the operation was opened for,
    /// where the operation is still to read it.
    pub fn thread_file(&self) -> (source: Option<String>)
        ensures
            match source {
                Some(source) => thread_file(self@) == Some(source@),
                None => thread_file(self@) is None,
            },
    {
        match self {
            Operation::ProbingRoot { source, .. }
            | Operation::CreatingRoot { source, .. }
            | Operation::Reserving { source, .. }
            | Operation::Unsharing { source, .. }
            | Operation::Opening { source, .. }
            | Operation::Binding { source, .. } => Some(source.clone()),
            _ => None,
        }
    }

    /// Whether the operation may run on `task`.
    pub fn runs_on(&self, task: Task) -> (fit: bool)
        ensures
            fit == runs_on(self@, task),
    {
        match self.thread_file() {
            Some(source) => source == task_ns_path(task),
            None => true,
        }
    }

    /// Whether the operation has nothing more to ask.
    pub fn is_finished(&self) -> (finished: bool)
        ensures
            finished == (self@ is Finished),
    {
        match self {
            Operation::Finished(_) => true,
            _ => false,
        }
    }

    /// The result of a finished operation; `None` while a request is
    /// pending.
    pub fn outcome(self) -> (result: Option<Result<Outcome, NetnsError>>)
        ensures
            match result {
                Some(Ok(outcome)) => self@ == OperationView::Finished(Ok(outcome@)),
                Some(Err(error)) => self@ == OperationView::Finished(Err(error@)),
                None => !(self@ is Finished),
            },
    {
        match self {
            Operation::Finished(result) => Some(result),
            _ => None,
        }
    }
}

impl Netns {
    /// The operation that allocates a fresh, empty network namespace and
    /// opens a handle on it. The calling thread is attached to the new
    /// namespace from then on.
    pub fn new(task: Task) -> (op: Operation)
        ensures
            op@ == allocating(task),
    {
        Operation::Unsharing { source: task_ns_path(task), bind_to: None }
    }

    /// The operation that allocates a fresh network namespace and gives it
    /// `name` in the default registry; see `Registry::new_named`.
    pub fn new_named(name: &str, task: Task) -> (op: Operation)
        ensures
            op@ == allocating_named(default_root(), name@, task),
    {
        Registry::default().new_named(name, task)
    }

    /// The operation that removes `name` from the default registry; see
    /// `Registry::delete_named`.
    pub fn delete_named(name: &str) -> (op: Operation)
        ensures
            op@ == deleting_named(default_root(), name@),
    {
        Registry::default().delete_named(name)
    }

    /// The operation that opens the namespace at `path`. A path that cannot
    /// be opened is no error: the lookup finds nothing. The handle carries
    /// the path as it was given.
    pub fn get_from_path(path: &str) -> (op: Operation)
        ensures
            op@ == looking_up(path@),
    {
        Operation::LookingUp { path: String::from_str(path) }
    }

    /// The operation that opens the namespace that the default registry
    /// holds under `name`.
    pub fn get_from_name(name: &str) -> (op: Operation)
        ensures
            op@ == looking_up(entry_path(default_root(), name@)),
    {
        Registry::default().get_from_name(name)
    }

    /// The operation that opens the namespace that the calling thread is
    /// attached to, and changes nothing.
    pub fn get(task: Task) -> (op: Operation)
        ensures
            op@ == opening_current(task),
    {
        Operation::Opening { source: task_ns_path(task), bind_to: None }
    }

    /// The operation that attaches the calling thread, and no other, to
    /// this namespace.
    pub fn set(&self) -> (op: Operation)
        ensures
            op@ == attaching(self@),
    {
        Operation::Attaching { fd: self.fd() }
    }
}

impl Registry {
    /// The operation that allocates a fresh network namespace and gives it
    /// `name` in this registry. The name must be free: a placeholder that
    /// is already there is never mounted over. Where a request fails after
    /// the placeholder was created, the placeholder stays behind for the
    /// caller to delete.
    pub fn new_named(&self, name: &str, task: Task) -> (op: Operation)
        ensures
            op@ == allocating_named(self@, name@, task),
    {
        Operation::ProbingRoot {
            root: self.root(),
            entry: self.entry(name),
            source: task_ns_path(task),
        }
    }

    /// The operation that removes `name` from this registry. A name that is
    /// not there is no error. A placeholder that an allocation left behind
    /// without a mount is removed like any other entry. The namespace lives
    /// on while anything else refers to it.
    pub fn delete_named(&self, name: &str) -> (op: Operation)
        ensures
            op@ == deleting_named(self@, name@),
    {
        Operation::ProbingEntry { entry: self.entry(name) }
    }

    /// The operation that opens the namespace that this registry holds
    /// under `name`.
    pub fn get_from_name(&self, name: &str) -> (op: Operation)
        ensures
            op@ == looking_up(entry_path(self@, name@)),
    {
        Operation::LookingUp { path: self.entry(name) }
    }
}

/// The operation that runs the caller's work with the calling thread
/// attached to `target_ns`, and attaches the thread to `cur_ns` again when
/// the work has ended, however it ended. The work does not run if the
/// thread cannot enter. The caller keeps the whole operation on one OS
/// thread and lets nothing else switch namespaces on that thread meanwhile.
pub fn exec_netns(cur_ns: &Netns, target_ns: &Netns) -> (op: Operation)
    ensures
        op@ == scoped(cur_ns@, target_ns@),
{
    Operation::Entering { home: cur_ns.fd(), target: target_ns.fd() }
}

} // verus!
