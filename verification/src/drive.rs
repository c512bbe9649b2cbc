//! Running an operation to its end with a driver of the caller's.

use vstd::prelude::*;
use vstd::pervasive::unreached;
use crate::error::NetnsError;
use crate::kernel::{needs_kernel_only, perform, reply_of};
use crate::operation::{pending, runs_on, thread_file, Operation, OperationView, Outcome};
use crate::task::Task;
use crate::request::{Reply, Request, RequestView};
use crate::trace::{
    lemma_run_extends, lemma_run_yields, lemma_step_progresses, remaining, run, yields,
};

verus! {

/// The finished state that hands `result` to the caller.
pub open spec fn ended(result: Result<Outcome, NetnsError>) -> OperationView {
    OperationView::Finished(
        match result {
            Ok(outcome) => Ok(outcome@),
            Err(error) => Err(error@),
        },
    )
}

/// Whether `reply` is an answer to `request`: how a kernel call ended, where
/// the request needs the kernel only, and what `driver` returned for the
/// request otherwise.
pub open spec fn answers<F: Fn(&Request) -> Reply>(
    driver: F,
    request: RequestView,
    reply: Reply,
) -> bool {
    if needs_kernel_only(request) {
        exists|result: Result<(), i32>| reply == #[trigger] reply_of(result)
    } else {
        exists|asked: Request| #[trigger] asked@ == request && driver.ensures((&asked,), reply)
    }
}

/// Whether each of `replies` came as an answer to the request that `op` was
/// waiting on at that moment.
pub open spec fn answered_in_turn<F: Fn(&Request) -> Reply>(
    driver: F,
    op: OperationView,
    replies: Seq<Reply>,
) -> bool {
    forall|i: int|
        0 <= i < replies.len() ==> {
            let waiting = #[trigger] run(op, replies.take(i));
            pending(waiting) is Some && answers(driver, pending(waiting)->0, replies[i])
        }
}

/// Whether `result` is what `op` comes to after some replies, each in
/// answer to the request then pending, and no more of them than the
/// operation could ask requests.
pub open spec fn ran<F: Fn(&Request) -> Reply>(
    driver: F,
    op: OperationView,
    result: Result<Outcome, NetnsError>,
) -> bool {
    exists|replies: Seq<Reply>|
        {
            &&& replies.len() <= remaining(op)
            &&& #[trigger] run(op, replies) == ended(result)
            &&& answered_in_turn(driver, op, replies)
        }
}

/// Runs `op` to its end as the thread `task`, which is the calling thread.
/// An operation that was opened for another thread is refused before
/// anything is asked, and no other is. Each request is carried out when it
/// is asked, once: by the kernel where the request needs it alone, by
/// `driver` otherwise. A result that is no error holds what the operation
/// was opened for.
pub fn drive_on<F: Fn(&Request) -> Reply>(op: Operation, driver: F, task: Task) -> (result:
    Result<Outcome, NetnsError>)
    requires
        forall|request: &Request| driver.requires((request,)),
    ensures
        !runs_on(op@, task) ==> (result matches Err(NetnsError::WrongThread { source })
            && thread_file(op@) == Some(source@)),
        runs_on(op@, task) ==> ran(driver, op@, result),
        result matches Ok(outcome) ==> yields(op@, outcome@),
{
    if !op.runs_on(task) {
        return match op.thread_file() {
            Some(source) => Err(NetnsError::WrongThread { source }),
            None => unreached(),
        };
    }
    let ghost start = op@;
    let ghost mut replies: Seq<Reply> = Seq::empty();
    let mut state = op;
    loop
        invariant
            forall|request: &Request| driver.requires((request,)),
            start == op@,
            runs_on(start, task),
            state@ == run(start, replies),
            replies.len() + remaining(state@) <= remaining(start),
            answered_in_turn(driver, start, replies),
        decreases remaining(state@),
    {
        match state.request() {
            Some(request) => {
                let reply = match perform(&request) {
                    Some(reply) => reply,
                    None => driver(&request),
                };
                proof {
                    let longer = replies.push(reply);
                    assert(answers(driver, request@, reply));
                    lemma_step_progresses(state@, reply);
                    lemma_run_extends(start, replies, reply);
                    assert forall|i: int| 0 <= i < longer.len() implies ({
                        let waiting = #[trigger] run(start, longer.take(i));
                        pending(waiting) is Some && answers(driver, pending(waiting)->0, longer[i])
                    }) by {
                        if i < replies.len() {
                            assert(longer.take(i) =~= replies.take(i));
                        } else {
                            assert(longer.take(i) =~= replies);
                        }
                    }
                    replies = longer;
                }
                state = state.advance(reply);
            },
            None => {
                proof {
                    lemma_step_progresses(state@, Reply::Done);
                    lemma_run_yields(start, replies);
                }
                let result = match state.outcome() {
                    Some(result) => result,
                    None => unreached(),
                };
                assert(run(start, replies) == ended(result));
                return result;
            },
        }
    }
}

/// Runs `op` to its end on the calling thread: `drive_on` for the thread
/// that the kernel names as the caller. The operation has run, or it was
/// refused as one that was opened for another thread.
pub fn drive<F: Fn(&Request) -> Reply>(op: Operation, driver: F) -> (result: Result<
    Outcome,
    NetnsError,
>)
    requires
        forall|request: &Request| driver.requires((request,)),
    ensures
        ran(driver, op@, result) || (result matches Err(NetnsError::WrongThread { source })
            && thread_file(op@) == Some(source@)),
        thread_file(op@) is None ==> ran(driver, op@, result),
        result matches Ok(outcome) ==> yields(op@, outcome@),
{
    drive_on(op, driver, Task::current())
}

} // verus!
