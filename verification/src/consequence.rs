//! What the handles of finished operations have in common, given what the
//! kernel showed.
//!
//! Three things are the kernel's to keep and stand here as premises: a
//! fresh namespace has an identity of its own; the file of a thread shows
//! the namespace that the thread is attached to; an entry of the registry
//! shows the namespace that was bound to it. What follows for the handles
//! is proved.

use vstd::prelude::*;
use vstd::std_specs::cmp::PartialEqSpec;
use crate::handle::Netns;
use crate::ident::{identity_tag, lemma_tag_identifies, NsId};
use crate::operation::{
    allocating, allocating_named, looking_up, opening_current, scoped, OperationView, OutcomeView,
};
use crate::path::entry_path;
use crate::request::{Reply, RequestView};
use crate::task::Task;
use crate::trace::{
    asked, lemma_get_run, lemma_lookup_run, lemma_new_named_run, lemma_new_run,
    lemma_scope_returns, named_success, run,
};

verus! {

/// Whether `op`, answered with `replies`, ends by handing over `handle`.
pub open spec fn hands_over(op: OperationView, replies: Seq<Reply>, handle: Netns) -> bool {
    run(op, replies) == OperationView::Finished(Ok(OutcomeView::Handle(handle@)))
}

/// Whether the lookup `op`, answered with `replies`, ends by finding
/// `handle`.
pub open spec fn finds(op: OperationView, replies: Seq<Reply>, handle: Netns) -> bool {
    run(op, replies) == OperationView::Finished(Ok(OutcomeView::Lookup(Some(handle@))))
}

/// The replies where an anonymous allocation is carried out and the
/// thread's file then shows `id` through the descriptor `fd`.
pub open spec fn anonymous_success(fd: i32, id: Option<NsId>) -> Seq<Reply> {
    seq![Reply::Done, Reply::Opened { fd, id }]
}

/// Two anonymous allocations whose namespaces the kernel showed under
/// different identities hand over handles that are unequal either way round
/// and have different tags; neither handle has a path.
pub proof fn lemma_fresh_namespaces_differ(
    first_task: Task,
    first_fd: i32,
    first_id: Option<NsId>,
    first: Netns,
    second_task: Task,
    second_fd: i32,
    second_id: Option<NsId>,
    second: Netns,
)
    requires
        hands_over(allocating(first_task), anonymous_success(first_fd, first_id), first),
        hands_over(allocating(second_task), anonymous_success(second_fd, second_id), second),
        first_id != second_id,
    ensures
        !first.eq_spec(&second),
        !second.eq_spec(&first),
        identity_tag(first@.id) != identity_tag(second@.id),
        first@.path is None,
        second@.path is None,
{
    lemma_new_run(first_task, first_fd, first_id);
    lemma_new_run(second_task, second_fd, second_id);
    lemma_tag_identifies(first_id, second_id);
}

/// The current namespace after an attach: where the thread's file shows the
/// identity of the handle that the thread was attached to, the handle that
/// is opened on it has the tag of that handle and, if the identity could be
/// read, equals it, whatever the descriptors and the paths of the two.
pub proof fn lemma_current_is_the_attached(attached: Netns, task: Task, fd: i32, current: Netns)
    requires
        hands_over(
            opening_current(task),
            seq![Reply::Opened { fd, id: attached@.id }],
            current,
        ),
    ensures
        identity_tag(current@.id) == identity_tag(attached@.id),
        attached@.id is Some ==> current.eq_spec(&attached) && attached.eq_spec(&current),
        attached@.id is None ==> !current.eq_spec(&attached),
        current@.fd == fd,
        current@.path is None,
{
    lemma_get_run(task, fd, attached@.id);
}

/// The current namespace after scoped work: the scope asks to enter the
/// target, to run the work, and to return home, and ends well whatever
/// reply ended the work. Where the thread's file then shows the identity of
/// the home handle, the handle that is opened on it has the tag of the home
/// handle and, if the identity could be read, equals it.
pub proof fn lemma_current_after_scope_is_home(
    home: Netns,
    target: Netns,
    work_end: Reply,
    task: Task,
    fd: i32,
    current: Netns,
)
    requires
        hands_over(opening_current(task), seq![Reply::Opened { fd, id: home@.id }], current),
    ensures
        run(scoped(home@, target@), seq![Reply::Done, work_end, Reply::Done])
            == OperationView::Finished(Ok(OutcomeView::Done)),
        asked(scoped(home@, target@), seq![Reply::Done, work_end, Reply::Done]).last() == (
        RequestView::Attach { fd: home@.fd }),
        identity_tag(current@.id) == identity_tag(home@.id),
        home@.id is Some ==> current.eq_spec(&home) && home.eq_spec(&current),
{
    lemma_scope_returns(home@, target@, work_end);
    lemma_get_run(task, fd, home@.id);
}

/// A namespace that was allocated under a name and is looked up under that
/// name: where the entry shows the identity that the allocation read, the
/// handle that is found has the tag and the path of the allocated one and,
/// if the identity could be read, equals it, whatever the two descriptors
/// and whatever namespace the thread is attached to by then.
pub proof fn lemma_found_is_the_allocated(
    root: Seq<char>,
    name: Seq<char>,
    task: Task,
    root_found: bool,
    fd: i32,
    id: Option<NsId>,
    allocated: Netns,
    other_fd: i32,
    found: Netns,
)
    requires
        hands_over(
            allocating_named(root, name, task),
            named_success(root_found, fd, id),
            allocated,
        ),
        finds(
            looking_up(entry_path(root, name)),
            seq![Reply::Opened { fd: other_fd, id }],
            found,
        ),
    ensures
        identity_tag(found@.id) == identity_tag(allocated@.id),
        found@.path == allocated@.path,
        found@.path == Some(entry_path(root, name)),
        found@.fd == other_fd,
        id is Some ==> found.eq_spec(&allocated) && allocated.eq_spec(&found),
        id is None ==> !found.eq_spec(&allocated),
{
    lemma_new_named_run(root, name, task, root_found, fd, id);
    lemma_lookup_run(entry_path(root, name), Reply::Opened { fd: other_fd, id });
}

/// A namespace that is allocated under a name while a handle on the
/// namespace that the thread came from is held: where the kernel showed the
/// two under different identities, the new handle is unequal to the held
/// one, their tags differ, and the new handle has the tag of the identity
/// that was read and the path of its entry.
pub proof fn lemma_named_allocation_differs(
    task: Task,
    held_fd: i32,
    held_id: Option<NsId>,
    held: Netns,
    root: Seq<char>,
    name: Seq<char>,
    root_found: bool,
    fd: i32,
    id: Option<NsId>,
    allocated: Netns,
)
    requires
        hands_over(opening_current(task), seq![Reply::Opened { fd: held_fd, id: held_id }], held),
        hands_over(
            allocating_named(root, name, task),
            named_success(root_found, fd, id),
            allocated,
        ),
        held_id != id,
    ensures
        !allocated.eq_spec(&held),
        !held.eq_spec(&allocated),
        identity_tag(allocated@.id) != identity_tag(held@.id),
        identity_tag(allocated@.id) == identity_tag(id),
        allocated@.path == Some(entry_path(root, name)),
{
    lemma_get_run(task, held_fd, held_id);
    lemma_new_named_run(root, name, task, root_found, fd, id);
    lemma_tag_identifies(held_id, id);
}

} // verus!
