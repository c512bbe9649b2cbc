//! The calling thread, as the kernel numbers it.

use vstd::prelude::*;

verus! {

/// The process and thread numbers of one OS thread. A namespace attachment
/// belongs to the thread, so an operation that reads the thread's own
/// namespace file is opened for one `Task` and runs on that thread only.
#[derive(Clone, Copy, Debug, PartialEq, Eq, Structural)]
pub struct Task {
    pub pid: i32,
    pub tid: i32,
}

/// Calls `nix::unistd::getpid`. The number is the kernel's answer for the
/// running process, so nothing is claimed of it.
#[verifier::external_body]
fn process_id() -> i32 {
    nix::unistd::getpid().as_raw()
}

/// Calls `nix::unistd::gettid`. The number is the kernel's answer for the
/// calling thread, so nothing is claimed of it.
#[verifier::external_body]
fn thread_id() -> i32 {
    nix::unistd::gettid().as_raw()
}

impl Task {
    /// The thread that makes this call.
    pub fn current() -> Task {
        Task { pid: process_id(), tid: thread_id() }
    }
}

} // verus!
