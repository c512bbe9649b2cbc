//! The paths under which namespaces are found: the registry of named
//! namespaces and the kernel's per-thread namespace file.

use vstd::prelude::*;
use vstd::string::StringExecFns;
use vstd::string::StrSliceExecFns;
use crate::task::Task;
use crate::text::{push_signed_decimal, signed_decimal};

verus! {

/// The directory that holds the registry unless another is chosen.
pub const BIND_MOUNT_PATH: &'static str = "/run/netns";

/// The mode that the registry directory is created with.
pub const REGISTRY_MODE: u32 = 0o755;

/// The mode that a placeholder file is created with.
pub const PLACEHOLDER_MODE: u32 = 0o444;

/// The registry directory that is used unless another is chosen, as text.
pub open spec fn default_root() -> Seq<char> {
    "/run/netns"@
}

/// The path of the entry called `name` in the registry at `root`, joined as
/// paths are: a name that is an absolute path stands for itself; any other
/// is appended to the root, after a separator unless the root is empty or
/// ends in one.
pub open spec fn entry_path(root: Seq<char>, name: Seq<char>) -> Seq<char> {
    if name.len() > 0 && name[0] == '/' {
        name
    } else if root.len() == 0 || root.last() == '/' {
        root + name
    } else {
        root + seq!['/'] + name
    }
}

/// The file through which the kernel exposes the network namespace of
/// thread `tid` of process `pid`.
pub open spec fn thread_ns_path(pid: int, tid: int) -> Seq<char> {
    "/proc/"@ + signed_decimal(pid) + "/task/"@ + signed_decimal(tid) + "/ns/net"@
}

/// A registry of named namespaces: a directory that holds one placeholder
/// file per name, each with its namespace bound onto it. Its view is the
/// directory's path.
#[derive(Debug)]
pub struct Registry {
    root: String,
}

impl View for Registry {
    type V = Seq<char>;

    closed spec fn view(&self) -> Seq<char> {
        self.root@
    }
}

impl Default for Registry {
    /// The registry at `BIND_MOUNT_PATH`, which standard tooling shares.
    fn default() -> (registry: Registry)
        ensures
            registry@ == default_root(),
    {
        Registry { root: String::from_str(BIND_MOUNT_PATH) }
    }
}

impl Registry {
    /// The registry in the directory `root`.
    pub fn at(root: &str) -> (registry: Registry)
        ensures
            registry@ == root@,
    {
        Registry { root: String::from_str(root) }
    }

    /// The registry's directory.
    pub fn root(&self) -> (root: String)
        ensures
            root@ == self@,
    {
        self.root.clone()
    }

    /// Builds the path of the entry called `name`.
    pub fn entry(&self, name: &str) -> (path: String)
        ensures
            path@ == entry_path(self@, name@),
    {
        if !name.is_empty() && name.get_char(0) == '/' {
            return String::from_str(name);
        }
        let mut path = self.root.clone();
        let len = self.root.as_str().unicode_len();
        if len > 0 && self.root.as_str().get_char(len - 1) != '/' {
            proof {
                reveal_strlit("/");
            }
            path.append("/");
        }
        path.append(name);
        path
    }
}

/// Builds the path of the namespace file of `task`.
pub fn task_ns_path(task: Task) -> (path: String)
    ensures
        path@ == thread_ns_path(task.pid as int, task.tid as int),
{
    let mut path = String::from_str("/proc/");
    push_signed_decimal(&mut path, task.pid);
    path.append("/task/");
    push_signed_decimal(&mut path, task.tid);
    path.append("/ns/net");
    path
}

} // verus!
