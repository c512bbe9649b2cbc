//! The requests that need the kernel and nothing else: no file is opened
//! for them and no descriptor is held, so they are carried out here. What
//! the kernel answers is not known in advance; only the shape of the reply
//! is.

use vstd::prelude::*;
use crate::request::{Cause, Reply, Request, RequestView};

verus! {

/// Whether the request acts on the calling thread or on the mount table
/// alone, so that `perform` carries it out.
pub open spec fn needs_kernel_only(request: RequestView) -> bool {
    request is Unshare || request is BindMount || request is Unmount
}

/// Calls `nix::sched::unshare` with the flag `CLONE_NEWNET`, which moves the
/// calling thread into a fresh network namespace, and hands back the error
/// number where the kernel refuses. Nothing is claimed of the result: it is
/// the kernel's to decide.
#[verifier::external_body]
fn unshare_network() -> Result<(), i32> {
    match nix::sched::unshare(nix::sched::CloneFlags::CLONE_NEWNET) {
        Ok(()) => Ok(()),
        Err(errno) => Err(errno as i32),
    }
}

/// Calls `nix::mount::mount` with the flag `MS_BIND` and neither a file
/// system type nor data, which binds `source` onto `target`, and hands back
/// the error number where the kernel refuses or a path holds a NUL. Nothing
/// is claimed of the result.
#[verifier::external_body]
fn bind_mount(source: &str, target: &str) -> Result<(), i32> {
    let bound = nix::mount::mount(
        Some(source),
        target,
        None::<&str>,
        nix::mount::MsFlags::MS_BIND,
        None::<&str>,
    );
    match bound {
        Ok(()) => Ok(()),
        Err(errno) => Err(errno as i32),
    }
}

/// Calls `nix::mount::umount2` with the flag `MNT_DETACH`, which detaches
/// what is mounted on `path` even while it is in use, and hands back the
/// error number where the kernel refuses or the path holds a NUL. Nothing is
/// claimed of the result.
#[verifier::external_body]
fn detach_mount(path: &str) -> Result<(), i32> {
    match nix::mount::umount2(path, nix::mount::MntFlags::MNT_DETACH) {
        Ok(()) => Ok(()),
        Err(errno) => Err(errno as i32),
    }
}

/// The reply that reports how a kernel call ended.
pub open spec fn reply_of(result: Result<(), i32>) -> Reply {
    match result {
        Ok(_) => Reply::Done,
        Err(code) => Reply::Failed(Cause::Errno(code)),
    }
}

/// Reports how a kernel call ended.
pub fn report(result: Result<(), i32>) -> (reply: Reply)
    ensures
        reply == reply_of(result),
{
    match result {
        Ok(_) => Reply::Done,
        Err(code) => Reply::Failed(Cause::Errno(code)),
    }
}

/// Carries out `request` on the calling thread if it needs the kernel only,
/// and reports how the call ended; leaves every other request to the driver.
pub fn perform(request: &Request) -> (reply: Option<Reply>)
    ensures
        reply is Some <==> needs_kernel_only(request@),
        reply matches Some(reply) ==> exists|result: Result<(), i32>| reply == reply_of(result),
{
    match request {
        Request::Unshare => Some(report(unshare_network())),
        Request::BindMount { source, target } => Some(
            report(bind_mount(source.as_str(), target.as_str())),
        ),
        Request::Unmount { path } => Some(report(detach_mount(path.as_str()))),
        _ => None,
    }
}

} // verus!
