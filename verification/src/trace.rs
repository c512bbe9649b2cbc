//! Whole runs of an operation: what is asked, in which order, and how the
//! run ends, for every way the requests may be answered.

use vstd::prelude::*;
use crate::error::NetnsErrorView;
use crate::handle::NetnsView;
use crate::ident::{same_namespace, NsId};
use crate::operation::{
    allocating, allocating_named, attaching, deleting_named, looking_up, opening_current, pending,
    scoped, step, OperationView, OutcomeView,
};
use crate::path::{entry_path, thread_ns_path};
use crate::request::{Cause, Reply, RequestView, EINVAL};
use crate::task::Task;

verus! {

/// The state that `op` is in after `replies`, in order.
pub open spec fn run(op: OperationView, replies: Seq<Reply>) -> OperationView
    decreases replies.len(),
{
    if replies.len() == 0 {
        op
    } else {
        run(step(op, replies[0]), replies.drop_first())
    }
}

/// The requests that `op` asks while `replies` come in: one for each reply
/// that arrives before the operation is finished.
pub open spec fn asked(op: OperationView, replies: Seq<Reply>) -> Seq<RequestView>
    decreases replies.len(),
{
    if replies.len() == 0 {
        Seq::empty()
    } else {
        match pending(op) {
            Some(request) => seq![request] + asked(step(op, replies[0]), replies.drop_first()),
            None => Seq::empty(),
        }
    }
}

/// The most requests that `op` may still ask.
pub open spec fn remaining(op: OperationView) -> nat {
    match op {
        OperationView::ProbingRoot { .. } => 6,
        OperationView::CreatingRoot { .. } => 5,
        OperationView::Reserving { .. } => 4,
        OperationView::Unsharing { bind_to, .. } => if bind_to is Some {
            3
        } else {
            2
        },
        OperationView::Opening { bind_to, .. } => if bind_to is Some {
            2
        } else {
            1
        },
        OperationView::Binding { .. } => 1,
        OperationView::ProbingEntry { .. } => 3,
        OperationView::Detaching { .. } => 2,
        OperationView::Removing { .. } => 1,
        OperationView::LookingUp { .. } => 1,
        OperationView::Attaching { .. } => 1,
        OperationView::Entering { .. } => 3,
        OperationView::Working { .. } => 2,
        OperationView::Leaving { .. } => 1,
        OperationView::Finished(_) => 0,
    }
}

/// A run is taken one reply at a time.
pub proof fn lemma_run_unfolds(op: OperationView, first: Reply, rest: Seq<Reply>)
    ensures
        run(op, seq![first] + rest) == run(step(op, first), rest),
        asked(op, seq![first] + rest) == match pending(op) {
            Some(request) => seq![request] + asked(step(op, first), rest),
            None => Seq::empty(),
        },
{
    let replies = seq![first] + rest;
    assert(replies.drop_first() =~= rest);
}

/// A run that has had one more reply is one step further.
pub proof fn lemma_run_extends(op: OperationView, replies: Seq<Reply>, last: Reply)
    ensures
        run(op, replies.push(last)) == step(run(op, replies), last),
    decreases replies.len(),
{
    let longer = replies.push(last);
    if replies.len() == 0 {
        assert(longer.drop_first() =~= Seq::<Reply>::empty());
        assert(run(step(op, last), Seq::<Reply>::empty()) == step(op, last));
    } else {
        assert(longer.drop_first() =~= replies.drop_first().push(last));
        lemma_run_extends(step(op, replies[0]), replies.drop_first(), last);
    }
}

/// Every reply brings an unfinished operation nearer to its end, and a
/// finished one stays finished: no request is asked twice, and none after
/// the end.
pub proof fn lemma_step_progresses(op: OperationView, reply: Reply)
    ensures
        pending(op) is Some <==> !(op is Finished),
        op is Finished ==> step(op, reply) == op,
        !(op is Finished) ==> remaining(step(op, reply)) < remaining(op),
        remaining(op) <= 6,
        remaining(op) == 0 <==> op is Finished,
{
}

/// An operation is finished once it has had as many replies as it could
/// still ask requests, and so after six replies at most.
pub proof fn lemma_run_finishes(op: OperationView, replies: Seq<Reply>)
    requires
        replies.len() >= remaining(op),
    ensures
        run(op, replies) is Finished,
        asked(op, replies).len() <= remaining(op),
    decreases replies.len(),
{
    if replies.len() > 0 {
        lemma_step_progresses(op, replies[0]);
        if !(op is Finished) {
            lemma_run_finishes(step(op, replies[0]), replies.drop_first());
        } else {
            lemma_run_stays_finished(op, replies);
        }
    }
}

/// Replies to a finished operation change nothing and ask nothing.
pub proof fn lemma_run_stays_finished(op: OperationView, replies: Seq<Reply>)
    requires
        op is Finished,
    ensures
        run(op, replies) == op,
        asked(op, replies) == Seq::<RequestView>::empty(),
    decreases replies.len(),
{
    if replies.len() > 0 {
        lemma_run_stays_finished(op, replies.drop_first());
    }
}

/// A failure that is reported ends the operation at once, with an
/// error that names the failed request and the cause. The exceptions are a
/// lookup, which then has found nothing; a placeholder that is already
/// there, which is a name conflict; an unmount that finds nothing mounted,
/// after which the placeholder is still removed; and scoped work, after
/// which the thread still returns. Nothing is retried and nothing is undone.
pub proof fn lemma_failure_ends_operation(op: OperationView, cause: Cause)
    requires
        !(op is Finished),
        !(op is LookingUp),
        !(op is Working),
        !(op is Reserving && cause == Cause::AlreadyExists),
        !(op is Detaching && cause == Cause::Errno(EINVAL)),
    ensures
        step(op, Reply::Failed(cause)) == OperationView::Finished(
            Err(NetnsErrorView::Failed { request: pending(op)->0, cause }),
        ),
{
}

/// A reply that fits no request ends the operation with an error that names
/// the request it was given for.
pub proof fn lemma_misfit_ends_operation(op: OperationView, reply: Reply)
    requires
        !(op is Finished),
        !(op is Working),
        !(reply is Failed),
        !fits(pending(op)->0, reply),
    ensures
        step(op, reply) == OperationView::Finished(
            Err(NetnsErrorView::Unexpected { request: pending(op)->0 }),
        ),
{
}

/// Whether `reply` reports that `request` was carried out.
pub open spec fn fits(request: RequestView, reply: Reply) -> bool {
    match request {
        RequestView::Exists { .. } => reply is Found,
        RequestView::Open { .. } => reply is Opened,
        RequestView::Work => true,
        _ => reply is Done,
    }
}

/// Whether `outcome` is what `op` is to hand over if it ends well: a handle
/// with the placeholder's path for a named allocation, a handle without a
/// path for an anonymous one and for the current namespace, a lookup whose
/// handle carries the path that was looked up, and nothing for the rest.
pub open spec fn yields(op: OperationView, outcome: OutcomeView) -> bool {
    match op {
        OperationView::ProbingRoot { entry, .. }
        | OperationView::CreatingRoot { entry, .. }
        | OperationView::Reserving { entry, .. } => {
            outcome matches OutcomeView::Handle(handle) && handle.path == Some(entry)
        },
        OperationView::Unsharing { bind_to, .. } | OperationView::Opening { bind_to, .. } => {
            outcome matches OutcomeView::Handle(handle) && handle.path == bind_to
        },
        OperationView::Binding { fd, id, entry, .. } => {
            outcome == OutcomeView::Handle(NetnsView { fd, id, path: Some(entry) })
        },
        OperationView::LookingUp { path } => {
            &&& outcome matches OutcomeView::Lookup(found)
            &&& found matches Some(handle) ==> handle.path == Some(path)
        },
        OperationView::ProbingEntry { .. }
        | OperationView::Detaching { .. }
        | OperationView::Removing { .. }
        | OperationView::Attaching { .. }
        | OperationView::Entering { .. }
        | OperationView::Working { .. }
        | OperationView::Leaving { .. } => outcome is Done,
        OperationView::Finished(result) => result == Ok::<OutcomeView, NetnsErrorView>(outcome),
    }
}

/// However the requests are answered, an operation that ends well hands
/// over what it was opened for, and a lookup never ends in a failure that
/// was reported to it.
pub proof fn lemma_run_yields(op: OperationView, replies: Seq<Reply>)
    ensures
        run(op, replies) matches OperationView::Finished(Ok(outcome)) ==> yields(op, outcome),
        op is LookingUp ==> !(run(op, replies) matches OperationView::Finished(
            Err(NetnsErrorView::Failed { .. }),
        )),
    decreases replies.len(),
{
    if replies.len() > 0 {
        let next = step(op, replies[0]);
        lemma_run_yields(next, replies.drop_first());
        if next is Finished {
            lemma_run_stays_finished(next, replies.drop_first());
        }
    }
}

/// No reply makes an operation blame the thread: that error is given
/// before anything is asked, or never.
pub proof fn lemma_run_never_blames_the_thread(op: OperationView, replies: Seq<Reply>)
    requires
        !(op is Finished),
    ensures
        !(run(op, replies) matches OperationView::Finished(
            Err(NetnsErrorView::WrongThread { .. }),
        )),
    decreases replies.len(),
{
    if replies.len() > 0 {
        let next = step(op, replies[0]);
        if next is Finished {
            lemma_run_stays_finished(next, replies.drop_first());
        } else {
            lemma_run_never_blames_the_thread(next, replies.drop_first());
        }
    }
}

/// Allocating an anonymous namespace: the thread is unshared, then its
/// namespace file is opened, and the handle has no path.
pub proof fn lemma_new_run(task: Task, fd: i32, id: Option<NsId>)
    ensures
        run(allocating(task), seq![Reply::Done, Reply::Opened { fd, id }])
            == OperationView::Finished(Ok(OutcomeView::Handle(NetnsView { fd, id, path: None }))),
        asked(allocating(task), seq![Reply::Done, Reply::Opened { fd, id }]) == seq![
            RequestView::Unshare,
            RequestView::Open { path: thread_ns_path(task.pid as int, task.tid as int) },
        ],
{
    let op = allocating(task);
    let opened = Reply::Opened { fd, id };
    assert(seq![Reply::Done, opened] =~= seq![Reply::Done] + seq![opened]);
    lemma_run_unfolds(op, Reply::Done, seq![opened]);
    lemma_run_unfolds(step(op, Reply::Done), opened, Seq::empty());
    assert(asked(op, seq![Reply::Done, opened]) =~= seq![
        RequestView::Unshare,
        RequestView::Open { path: thread_ns_path(task.pid as int, task.tid as int) },
    ]);
}

/// The replies where every request of allocating a named namespace is
/// carried out, with the registry directory there or not.
pub open spec fn named_success(root_found: bool, fd: i32, id: Option<NsId>) -> Seq<Reply> {
    if root_found {
        seq![Reply::Found(true), Reply::Done, Reply::Done, Reply::Opened { fd, id }, Reply::Done]
    } else {
        seq![
            Reply::Found(false),
            Reply::Done,
            Reply::Done,
            Reply::Done,
            Reply::Opened { fd, id },
            Reply::Done,
        ]
    }
}

/// Allocating a named namespace, every request carried out: the registry
/// directory is created with mode 0755 only where it is missing; the
/// placeholder is created exclusively with mode 0444 before anything is
/// allocated; the thread's own namespace file is bound to the placeholder;
/// and the handle carries the placeholder's path.
pub proof fn lemma_new_named_run(
    root: Seq<char>,
    name: Seq<char>,
    task: Task,
    root_found: bool,
    fd: i32,
    id: Option<NsId>,
)
    ensures
        run(allocating_named(root, name, task), named_success(root_found, fd, id))
            == OperationView::Finished(
            Ok(OutcomeView::Handle(NetnsView { fd, id, path: Some(entry_path(root, name)) })),
        ),
        asked(allocating_named(root, name, task), named_success(root_found, fd, id)) == (if root_found {
            seq![RequestView::Exists { path: root }]
        } else {
            seq![
                RequestView::Exists { path: root },
                RequestView::CreateDir { path: root, mode: 0o755 },
            ]
        }) + seq![
            RequestView::CreateFile { path: entry_path(root, name), mode: 0o444 },
            RequestView::Unshare,
            RequestView::Open { path: thread_ns_path(task.pid as int, task.tid as int) },
            RequestView::BindMount {
                source: thread_ns_path(task.pid as int, task.tid as int),
                target: entry_path(root, name),
            },
        ],
{
    let entry = entry_path(root, name);
    let source = thread_ns_path(task.pid as int, task.tid as int);
    let opened = Reply::Opened { fd, id };
    let reserving = OperationView::Reserving { entry, source };
    let tail = seq![Reply::Done, Reply::Done, opened, Reply::Done];
    let tail_asked = seq![
        RequestView::CreateFile { path: entry, mode: 0o444 },
        RequestView::Unshare,
        RequestView::Open { path: source },
        RequestView::BindMount { source, target: entry },
    ];
    assert(run(reserving, tail) == OperationView::Finished(
        Ok(OutcomeView::Handle(NetnsView { fd, id, path: Some(entry) })),
    ) && asked(reserving, tail) == tail_asked) by {
        let t1 = seq![Reply::Done, opened, Reply::Done];
        let t2 = seq![opened, Reply::Done];
        let t3 = seq![Reply::Done];
        assert(tail =~= seq![Reply::Done] + t1);
        assert(t1 =~= seq![Reply::Done] + t2);
        assert(t2 =~= seq![opened] + t3);
        let s1 = step(reserving, Reply::Done);
        let s2 = step(s1, Reply::Done);
        let s3 = step(s2, opened);
        lemma_run_unfolds(reserving, Reply::Done, t1);
        lemma_run_unfolds(s1, Reply::Done, t2);
        lemma_run_unfolds(s2, opened, t3);
        lemma_run_unfolds(s3, Reply::Done, Seq::empty());
    }
    let op = allocating_named(root, name, task);
    if root_found {
        assert(named_success(root_found, fd, id) =~= seq![Reply::Found(true)] + tail);
        lemma_run_unfolds(op, Reply::Found(true), tail);
        assert(asked(op, named_success(root_found, fd, id)) =~= seq![
            RequestView::Exists { path: root },
        ] + tail_asked);
    } else {
        let creating = step(op, Reply::Found(false));
        assert(named_success(root_found, fd, id) =~= seq![Reply::Found(false)] + (seq![
            Reply::Done,
        ] + tail));
        lemma_run_unfolds(op, Reply::Found(false), seq![Reply::Done] + tail);
        lemma_run_unfolds(creating, Reply::Done, tail);
        assert(asked(op, named_success(root_found, fd, id)) =~= seq![
            RequestView::Exists { path: root },
            RequestView::CreateDir { path: root, mode: 0o755 },
        ] + tail_asked);
    }
}

/// The replies where the name is found taken when the placeholder is to
/// be created.
pub open spec fn named_conflict(root_found: bool) -> Seq<Reply> {
    if root_found {
        seq![Reply::Found(true), Reply::Failed(Cause::AlreadyExists)]
    } else {
        seq![Reply::Found(false), Reply::Done, Reply::Failed(Cause::AlreadyExists)]
    }
}

/// Allocating under a name that is taken ends in a name conflict that names
/// the placeholder. Nothing has been asked for by then but the registry
/// directory and the placeholder: no namespace is allocated, and nothing is
/// mounted over the entry that holds the name.
pub proof fn lemma_new_named_conflict(
    root: Seq<char>,
    name: Seq<char>,
    task: Task,
    root_found: bool,
)
    ensures
        run(allocating_named(root, name, task), named_conflict(root_found)) == OperationView::Finished(
            Err(NetnsErrorView::NameConflict { path: entry_path(root, name) }),
        ),
        asked(allocating_named(root, name, task), named_conflict(root_found)) == (if root_found {
            seq![RequestView::Exists { path: root }]
        } else {
            seq![
                RequestView::Exists { path: root },
                RequestView::CreateDir { path: root, mode: 0o755 },
            ]
        }) + seq![RequestView::CreateFile { path: entry_path(root, name), mode: 0o444 }],
{
    let op = allocating_named(root, name, task);
    let taken = Reply::Failed(Cause::AlreadyExists);
    let reserving = OperationView::Reserving {
        entry: entry_path(root, name),
        source: thread_ns_path(task.pid as int, task.tid as int),
    };
    lemma_run_unfolds(reserving, taken, Seq::empty());
    if root_found {
        assert(named_conflict(root_found) =~= seq![Reply::Found(true)] + seq![taken]);
        lemma_run_unfolds(op, Reply::Found(true), seq![taken]);
        assert(asked(op, named_conflict(root_found)) =~= seq![
            RequestView::Exists { path: root },
        ] + seq![RequestView::CreateFile { path: entry_path(root, name), mode: 0o444 }]);
    } else {
        let tail = seq![Reply::Done, taken];
        assert(named_conflict(root_found) =~= seq![Reply::Found(false)] + tail);
        assert(tail =~= seq![Reply::Done] + seq![taken]);
        lemma_run_unfolds(op, Reply::Found(false), tail);
        lemma_run_unfolds(step(op, Reply::Found(false)), Reply::Done, seq![taken]);
        assert(asked(op, named_conflict(root_found)) =~= seq![
            RequestView::Exists { path: root },
            RequestView::CreateDir { path: root, mode: 0o755 },
        ] + seq![RequestView::CreateFile { path: entry_path(root, name), mode: 0o444 }]);
    }
}

/// Deleting a name that is not there succeeds after one probe: nothing is
/// unmounted and nothing is removed.
pub proof fn lemma_delete_missing(root: Seq<char>, name: Seq<char>)
    ensures
        run(deleting_named(root, name), seq![Reply::Found(false)]) == OperationView::Finished(
            Ok(OutcomeView::Done),
        ),
        asked(deleting_named(root, name), seq![Reply::Found(false)]) == seq![
            RequestView::Exists { path: entry_path(root, name) },
        ],
{
    let op = deleting_named(root, name);
    let missing = Reply::Found(false);
    lemma_run_unfolds(op, missing, Seq::empty());
}

/// Deleting a name that is there detaches the mount on its placeholder and
/// then removes the placeholder: the path that allocating under the name
/// created and bound.
pub proof fn lemma_delete_present(root: Seq<char>, name: Seq<char>)
    ensures
        run(deleting_named(root, name), seq![Reply::Found(true), Reply::Done, Reply::Done])
            == OperationView::Finished(Ok(OutcomeView::Done)),
        asked(deleting_named(root, name), seq![Reply::Found(true), Reply::Done, Reply::Done]) == seq![
            RequestView::Exists { path: entry_path(root, name) },
            RequestView::Unmount { path: entry_path(root, name) },
            RequestView::RemoveFile { path: entry_path(root, name) },
        ],
{
    let op = deleting_named(root, name);
    let replies = seq![Reply::Found(true), Reply::Done, Reply::Done];
    let t1 = seq![Reply::Done, Reply::Done];
    let t2 = seq![Reply::Done];
    assert(replies =~= seq![Reply::Found(true)] + t1);
    assert(t1 =~= seq![Reply::Done] + t2);
    let s1 = step(op, Reply::Found(true));
    let s2 = step(s1, Reply::Done);
    lemma_run_unfolds(op, Reply::Found(true), t1);
    lemma_run_unfolds(s1, Reply::Done, t2);
    lemma_run_unfolds(s2, Reply::Done, Seq::empty());
    assert(asked(op, replies) =~= seq![
        RequestView::Exists { path: entry_path(root, name) },
        RequestView::Unmount { path: entry_path(root, name) },
        RequestView::RemoveFile { path: entry_path(root, name) },
    ]);
}

/// Deleting a placeholder that has nothing mounted on it, as an allocation
/// leaves one behind where it fails after the placeholder was created: the
/// unmount is refused for want of a mount, the placeholder is removed all
/// the same, and the delete ends well.
pub proof fn lemma_delete_bare_placeholder(root: Seq<char>, name: Seq<char>)
    ensures
        run(
            deleting_named(root, name),
            seq![Reply::Found(true), Reply::Failed(Cause::Errno(EINVAL)), Reply::Done],
        ) == OperationView::Finished(Ok(OutcomeView::Done)),
        asked(
            deleting_named(root, name),
            seq![Reply::Found(true), Reply::Failed(Cause::Errno(EINVAL)), Reply::Done],
        ) == seq![
            RequestView::Exists { path: entry_path(root, name) },
            RequestView::Unmount { path: entry_path(root, name) },
            RequestView::RemoveFile { path: entry_path(root, name) },
        ],
{
    let op = deleting_named(root, name);
    let bare = Reply::Failed(Cause::Errno(EINVAL));
    let replies = seq![Reply::Found(true), bare, Reply::Done];
    let t1 = seq![bare, Reply::Done];
    let t2 = seq![Reply::Done];
    assert(replies =~= seq![Reply::Found(true)] + t1);
    assert(t1 =~= seq![bare] + t2);
    assert(t2 =~= seq![Reply::Done] + Seq::<Reply>::empty());
    let s1 = step(op, Reply::Found(true));
    let s2 = step(s1, bare);
    lemma_run_unfolds(op, Reply::Found(true), t1);
    lemma_run_unfolds(s1, bare, t2);
    lemma_run_unfolds(s2, Reply::Done, Seq::empty());
    assert(asked(op, replies) =~= seq![
        RequestView::Exists { path: entry_path(root, name) },
        RequestView::Unmount { path: entry_path(root, name) },
        RequestView::RemoveFile { path: entry_path(root, name) },
    ]);
}

/// The replies where allocating a named namespace fails at `failed_at`
/// requests past the placeholder: at the unshare, at the opening of the
/// thread's file, or at the bind mount.
pub open spec fn named_failure(
    root_found: bool,
    failed_at: nat,
    fd: i32,
    id: Option<NsId>,
    cause: Cause,
) -> Seq<Reply> {
    (if root_found {
        seq![Reply::Found(true), Reply::Done]
    } else {
        seq![Reply::Found(false), Reply::Done, Reply::Done]
    }) + (if failed_at == 0 {
        seq![Reply::Failed(cause)]
    } else if failed_at == 1 {
        seq![Reply::Done, Reply::Failed(cause)]
    } else {
        seq![Reply::Done, Reply::Opened { fd, id }, Reply::Failed(cause)]
    })
}

/// An allocation that fails after its placeholder was created ends with
/// the error of the failed request and asks nothing more: the placeholder
/// is left behind. The path that a delete under the same name then probes,
/// unmounts and removes is that of this placeholder.
pub proof fn lemma_failed_allocation_leaves_placeholder(
    root: Seq<char>,
    name: Seq<char>,
    task: Task,
    root_found: bool,
    failed_at: nat,
    fd: i32,
    id: Option<NsId>,
    cause: Cause,
)
    ensures
        ({
            let replies = named_failure(root_found, failed_at, fd, id, cause);
            let made = asked(allocating_named(root, name, task), replies);
            let lead: int = if root_found { 1 } else { 2 };
            &&& run(allocating_named(root, name, task), replies) matches OperationView::Finished(
                Err(NetnsErrorView::Failed { request, cause: found }),
            )
            &&& found == cause
            &&& request == made.last()
            &&& made.len() == replies.len()
            &&& made[lead] == RequestView::CreateFile {
                path: entry_path(root, name),
                mode: 0o444,
            }
            &&& forall|i: int| 0 <= i < made.len() ==> !(#[trigger] made[i] is RemoveFile)
            &&& pending(deleting_named(root, name)) == Some(
                RequestView::Exists { path: entry_path(root, name) },
            )
        }),
{
    let op = allocating_named(root, name, task);
    let entry = entry_path(root, name);
    let source = thread_ns_path(task.pid as int, task.tid as int);
    let opened = Reply::Opened { fd, id };
    let failed = Reply::Failed(cause);
    let unsharing = OperationView::Unsharing { source, bind_to: Some(entry) };
    let tail = if failed_at == 0 {
        seq![failed]
    } else if failed_at == 1 {
        seq![Reply::Done, failed]
    } else {
        seq![Reply::Done, opened, failed]
    };
    let tail_asked = if failed_at == 0 {
        seq![RequestView::Unshare]
    } else if failed_at == 1 {
        seq![RequestView::Unshare, RequestView::Open { path: source }]
    } else {
        seq![
            RequestView::Unshare,
            RequestView::Open { path: source },
            RequestView::BindMount { source, target: entry },
        ]
    };
    assert(run(unsharing, tail) == OperationView::Finished(
        Err(NetnsErrorView::Failed { request: tail_asked.last(), cause }),
    ) && asked(unsharing, tail) == tail_asked) by {
        assert(seq![failed] =~= seq![failed] + Seq::<Reply>::empty());
        if failed_at == 0 {
            lemma_run_unfolds(unsharing, failed, Seq::empty());
            assert(asked(unsharing, tail) =~= tail_asked);
        } else if failed_at == 1 {
            assert(tail =~= seq![Reply::Done] + seq![failed]);
            lemma_run_unfolds(unsharing, Reply::Done, seq![failed]);
            lemma_run_unfolds(step(unsharing, Reply::Done), failed, Seq::empty());
            assert(asked(unsharing, tail) =~= tail_asked);
        } else {
            let t1 = seq![opened, failed];
            assert(tail =~= seq![Reply::Done] + t1);
            assert(t1 =~= seq![opened] + seq![failed]);
            let s1 = step(unsharing, Reply::Done);
            let s2 = step(s1, opened);
            lemma_run_unfolds(unsharing, Reply::Done, t1);
            lemma_run_unfolds(s1, opened, seq![failed]);
            lemma_run_unfolds(s2, failed, Seq::empty());
            assert(asked(unsharing, tail) =~= tail_asked);
        }
    }
    let replies = named_failure(root_found, failed_at, fd, id, cause);
    let reserving = OperationView::Reserving { entry, source };
    let from_reserving = seq![Reply::Done] + tail;
    lemma_run_unfolds(reserving, Reply::Done, tail);
    let create = RequestView::CreateFile { path: entry, mode: 0o444 };
    if root_found {
        assert(replies =~= seq![Reply::Found(true)] + from_reserving);
        lemma_run_unfolds(op, Reply::Found(true), from_reserving);
        assert(asked(op, replies) =~= seq![RequestView::Exists { path: root }, create]
            + tail_asked);
    } else {
        let creating = step(op, Reply::Found(false));
        assert(replies =~= seq![Reply::Found(false)] + (seq![Reply::Done] + from_reserving));
        lemma_run_unfolds(op, Reply::Found(false), seq![Reply::Done] + from_reserving);
        lemma_run_unfolds(creating, Reply::Done, from_reserving);
        assert(asked(op, replies) =~= seq![
            RequestView::Exists { path: root },
            RequestView::CreateDir { path: root, mode: 0o755 },
            create,
        ] + tail_asked);
    }
}

/// Deleting a name addresses what allocating under it made in the
/// registry: the mount that is detached is on the path that allocation
/// bound to, and the file that is removed is the placeholder that
/// allocation created, so that a later allocation under the name asks to
/// create that very file anew.
pub proof fn lemma_delete_frees_the_name(
    root: Seq<char>,
    name: Seq<char>,
    task: Task,
    root_found: bool,
    fd: i32,
    id: Option<NsId>,
)
    ensures
        ({
            let made = asked(allocating_named(root, name, task), named_success(root_found, fd, id));
            let gone = asked(
                deleting_named(root, name),
                seq![Reply::Found(true), Reply::Done, Reply::Done],
            );
            &&& made.len() >= 4
            &&& gone.len() == 3
            &&& made[made.len() - 4] matches RequestView::CreateFile { path: created, .. }
            &&& made[made.len() - 1] matches RequestView::BindMount { target: bound, .. }
            &&& gone[1] == RequestView::Unmount { path: bound }
            &&& gone[2] == RequestView::RemoveFile { path: created }
        }),
{
    lemma_new_named_run(root, name, task, root_found, fd, id);
    lemma_delete_present(root, name);
}

/// A lookup asks for one file to be opened. Where the file opens, the
/// handle carries exactly the path that was looked up; where it does not,
/// for whatever cause, the lookup has found nothing and is no error.
pub proof fn lemma_lookup_run(path: Seq<char>, reply: Reply)
    requires
        reply is Opened || reply is Failed,
    ensures
        asked(looking_up(path), seq![reply]) == seq![RequestView::Open { path }],
        run(looking_up(path), seq![reply]) == OperationView::Finished(
            Ok(
                OutcomeView::Lookup(
                    match reply {
                        Reply::Opened { fd, id } => Some(NetnsView { fd, id, path: Some(path) }),
                        _ => None,
                    },
                ),
            ),
        ),
{
    let op = looking_up(path);
    lemma_run_unfolds(op, reply, Seq::empty());
}

/// A lookup by name opens the path that allocation under that name bound
/// the namespace to. Where the descriptor opened there shows the identity
/// that the thread's own file showed, the two handles are equal, whatever
/// their descriptors, and carry the same path.
pub proof fn lemma_lookup_finds_allocated(
    root: Seq<char>,
    name: Seq<char>,
    task: Task,
    root_found: bool,
    fd: i32,
    other_fd: i32,
    id: NsId,
)
    ensures
        ({
            let found = Reply::Opened { fd: other_fd, id: Some(id) };
            let allocated = run(
                allocating_named(root, name, task),
                named_success(root_found, fd, Some(id)),
            );
            let looked_up = run(looking_up(entry_path(root, name)), seq![found]);
            &&& asked(allocating_named(root, name, task), named_success(root_found, fd, Some(id))).last()
                == RequestView::BindMount {
                source: thread_ns_path(task.pid as int, task.tid as int),
                target: entry_path(root, name),
            }
            &&& asked(looking_up(entry_path(root, name)), seq![found]) == seq![
                RequestView::Open { path: entry_path(root, name) },
            ]
            &&& allocated matches OperationView::Finished(Ok(OutcomeView::Handle(first)))
            &&& looked_up matches OperationView::Finished(Ok(OutcomeView::Lookup(Some(second))))
            &&& same_namespace(first.id, second.id)
            &&& first.path == second.path
        }),
{
    lemma_new_named_run(root, name, task, root_found, fd, Some(id));
    lemma_lookup_run(entry_path(root, name), Reply::Opened { fd: other_fd, id: Some(id) });
}

/// Opening the current namespace asks for the thread's own namespace file
/// and for nothing else; the handle has no path.
pub proof fn lemma_get_run(task: Task, fd: i32, id: Option<NsId>)
    ensures
        run(opening_current(task), seq![Reply::Opened { fd, id }]) == OperationView::Finished(
            Ok(OutcomeView::Handle(NetnsView { fd, id, path: None })),
        ),
        asked(opening_current(task), seq![Reply::Opened { fd, id }]) == seq![
            RequestView::Open { path: thread_ns_path(task.pid as int, task.tid as int) },
        ],
{
    let op = opening_current(task);
    let opened = Reply::Opened { fd, id };
    lemma_run_unfolds(op, opened, Seq::empty());
    assert(asked(op, seq![opened]) =~= seq![
        RequestView::Open { path: thread_ns_path(task.pid as int, task.tid as int) },
    ]);
}

/// Attaching asks for one thing: that the thread be attached to the
/// namespace behind the handle's own descriptor.
pub proof fn lemma_set_run(handle: NetnsView)
    ensures
        run(attaching(handle), seq![Reply::Done]) == OperationView::Finished(
            Ok(OutcomeView::Done),
        ),
        asked(attaching(handle), seq![Reply::Done]) == seq![RequestView::Attach { fd: handle.fd }],
{
    let op = attaching(handle);
    lemma_run_unfolds(op, Reply::Done, Seq::empty());
}

/// Scoped work returns: once the thread has entered the target namespace,
/// the work is asked for, and whatever reply marks its end, success or
/// failure, the next and last request attaches the thread to the home
/// namespace again.
pub proof fn lemma_scope_returns(home: NetnsView, target: NetnsView, work_end: Reply)
    ensures
        run(scoped(home, target), seq![Reply::Done, work_end, Reply::Done])
            == OperationView::Finished(Ok(OutcomeView::Done)),
        asked(scoped(home, target), seq![Reply::Done, work_end, Reply::Done]) == seq![
            RequestView::Attach { fd: target.fd },
            RequestView::Work,
            RequestView::Attach { fd: home.fd },
        ],
{
    let op = scoped(home, target);
    let replies = seq![Reply::Done, work_end, Reply::Done];
    let t1 = seq![work_end, Reply::Done];
    let t2 = seq![Reply::Done];
    assert(replies =~= seq![Reply::Done] + t1);
    assert(t1 =~= seq![work_end] + t2);
    let s1 = step(op, Reply::Done);
    let s2 = step(s1, work_end);
    lemma_run_unfolds(op, Reply::Done, t1);
    lemma_run_unfolds(s1, work_end, t2);
    lemma_run_unfolds(s2, Reply::Done, Seq::empty());
    assert(asked(op, replies) =~= seq![
        RequestView::Attach { fd: target.fd },
        RequestView::Work,
        RequestView::Attach { fd: home.fd },
    ]);
}

/// Scoped work does not run where the thread could not enter the target
/// namespace: the operation ends with the error, and neither the work nor
/// a return is asked for.
pub proof fn lemma_scope_needs_entry(home: NetnsView, target: NetnsView, cause: Cause)
    ensures
        run(scoped(home, target), seq![Reply::Failed(cause)]) == OperationView::Finished(
            Err(
                NetnsErrorView::Failed { request: RequestView::Attach { fd: target.fd }, cause },
            ),
        ),
        asked(scoped(home, target), seq![Reply::Failed(cause)]) == seq![
            RequestView::Attach { fd: target.fd },
        ],
{
    let op = scoped(home, target);
    let failed = Reply::Failed(cause);
    lemma_run_unfolds(op, failed, Seq::empty());
}

} // verus!
