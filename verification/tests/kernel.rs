//! Whole operations, driven against a kernel small enough to read: one
//! thread, a registry directory, and a table of open descriptors.

use std::collections::HashMap;

use netns::{
    exec_netns, Cause, Netns, NetnsError, NsId, Operation, Outcome, Reply, Request, Task,
};

const NSFS_DEV: u64 = 4;
const TMPFS_DEV: u64 = 25;
const EPERM: i32 = 1;
const ENOENT: i32 = 2;
const EINVAL: i32 = 22;

struct Kernel {
    task: Task,
    privileged: bool,
    attached: NsId,
    next_ino: u64,
    next_fd: i32,
    root: bool,
    /// Registry files: what is mounted on each, or `None` for a bare file.
    entries: HashMap<String, Option<NsId>>,
    /// Open descriptors and the file each refers to.
    open: HashMap<i32, NsId>,
    log: Vec<Request>,
}

impl Kernel {
    fn boot() -> Kernel {
        Kernel {
            task: Task { pid: 4711, tid: 4720 },
            privileged: true,
            attached: NsId { dev: NSFS_DEV, ino: 4026531840 },
            next_ino: 4026532000,
            next_fd: 3,
            root: false,
            entries: HashMap::new(),
            open: HashMap::new(),
            log: Vec::new(),
        }
    }

    fn thread_file(&self) -> String {
        format!("/proc/{}/task/{}/ns/net", self.task.pid, self.task.tid)
    }

    fn fresh_ino(&mut self) -> u64 {
        self.next_ino += 1;
        self.next_ino
    }

    fn open_file(&mut self, id: NsId) -> Reply {
        let fd = self.next_fd;
        self.next_fd += 1;
        self.open.insert(fd, id);
        Reply::Opened { fd, id: Some(id) }
    }

    fn perform(&mut self, request: &Request) -> Reply {
        self.log.push(request.clone());
        match request {
            Request::Exists { path } => {
                Reply::Found((path == "/run/netns" && self.root) || self.entries.contains_key(path))
            }
            Request::CreateDir { path, mode } => {
                assert_eq!(path, "/run/netns");
                assert_eq!(*mode, 0o755);
                self.root = true;
                Reply::Done
            }
            Request::CreateFile { path, mode } => {
                assert_eq!(*mode, 0o444);
                if !self.root {
                    Reply::Failed(Cause::Errno(ENOENT))
                } else if self.entries.contains_key(path) {
                    Reply::Failed(Cause::AlreadyExists)
                } else {
                    self.entries.insert(path.clone(), None);
                    Reply::Done
                }
            }
            Request::Unshare => {
                if self.privileged {
                    let ino = self.fresh_ino();
                    self.attached = NsId { dev: NSFS_DEV, ino };
                    Reply::Done
                } else {
                    Reply::Failed(Cause::Errno(EPERM))
                }
            }
            Request::Open { path } => {
                if *path == self.thread_file() {
                    let id = self.attached;
                    self.open_file(id)
                } else {
                    match self.entries.get(path).copied() {
                        Some(Some(id)) => self.open_file(id),
                        Some(None) => {
                            let ino = self.fresh_ino();
                            self.open_file(NsId { dev: TMPFS_DEV, ino })
                        }
                        None => Reply::Failed(Cause::Errno(ENOENT)),
                    }
                }
            }
            Request::BindMount { source, target } => {
                if !self.privileged {
                    Reply::Failed(Cause::Errno(EPERM))
                } else if *source != self.thread_file() || !self.entries.contains_key(target) {
                    Reply::Failed(Cause::Errno(ENOENT))
                } else {
                    self.entries.insert(target.clone(), Some(self.attached));
                    Reply::Done
                }
            }
            Request::Unmount { path } => match self.entries.get(path).copied() {
                Some(Some(_)) => {
                    self.entries.insert(path.clone(), None);
                    Reply::Done
                }
                Some(None) => Reply::Failed(Cause::Errno(EINVAL)),
                None => Reply::Failed(Cause::Errno(ENOENT)),
            },
            Request::RemoveFile { path } => match self.entries.remove(path) {
                Some(_) => Reply::Done,
                None => Reply::Failed(Cause::Errno(ENOENT)),
            },
            Request::Attach { fd } => match self.open.get(fd).copied() {
                Some(id) if id.dev == NSFS_DEV && self.privileged => {
                    self.attached = id;
                    Reply::Done
                }
                Some(id) if id.dev == NSFS_DEV => Reply::Failed(Cause::Errno(EPERM)),
                Some(_) => Reply::Failed(Cause::Errno(EINVAL)),
                None => Reply::Failed(Cause::Errno(9)),
            },
            Request::Work => panic!("work is run by the caller of the scope"),
        }
    }

    fn drive(&mut self, mut op: Operation) -> Result<Outcome, NetnsError> {
        let mut steps = 0;
        while let Some(request) = op.request() {
            steps += 1;
            assert!(steps <= 6, "an operation asks six requests at most");
            let reply = self.perform(&request);
            op = op.advance(reply);
        }
        assert!(op.is_finished());
        op.outcome().unwrap()
    }

    fn handle(&mut self, op: Operation) -> Result<Netns, NetnsError> {
        match self.drive(op)? {
            Outcome::Handle(handle) => Ok(handle),
            other => panic!("expected a handle, got {:?}", other),
        }
    }

    fn done(&mut self, op: Operation) -> Result<(), NetnsError> {
        match self.drive(op)? {
            Outcome::Done => Ok(()),
            other => panic!("expected nothing, got {:?}", other),
        }
    }

    fn lookup(&mut self, op: Operation) -> Result<Option<Netns>, NetnsError> {
        match self.drive(op)? {
            Outcome::Lookup(found) => Ok(found),
            other => panic!("expected a lookup, got {:?}", other),
        }
    }

    fn get(&mut self) -> Result<Netns, NetnsError> {
        self.handle(Netns::get(self.task))
    }

    fn new(&mut self) -> Result<Netns, NetnsError> {
        self.handle(Netns::new(self.task))
    }

    fn new_named(&mut self, name: &str) -> Result<Netns, NetnsError> {
        self.handle(Netns::new_named(name, self.task))
    }

    fn delete_named(&mut self, name: &str) -> Result<(), NetnsError> {
        self.done(Netns::delete_named(name))
    }

    fn get_from_name(&mut self, name: &str) -> Result<Option<Netns>, NetnsError> {
        self.lookup(Netns::get_from_name(name))
    }

    fn get_from_path(&mut self, path: &str) -> Result<Option<Netns>, NetnsError> {
        self.lookup(Netns::get_from_path(path))
    }

    fn set(&mut self, ns: &Netns) -> Result<(), NetnsError> {
        self.done(ns.set())
    }

    /// Runs `work` inside `target_ns` and comes back to `cur_ns`.
    fn exec<T>(
        &mut self,
        cur_ns: &Netns,
        target_ns: &Netns,
        work: impl FnOnce(&mut Kernel) -> Result<T, String>,
    ) -> Result<Result<T, String>, NetnsError> {
        let mut op = exec_netns(cur_ns, target_ns);
        let mut work = Some(work);
        let mut result = None;
        while let Some(request) = op.request() {
            let reply = match request {
                Request::Work => {
                    let run = work.take().expect("work is asked for once");
                    let ended = run(self);
                    let reply = if ended.is_ok() {
                        Reply::Done
                    } else {
                        Reply::Failed(Cause::Other)
                    };
                    result = Some(ended);
                    reply
                }
                other => self.perform(&other),
            };
            op = op.advance(reply);
        }
        match op.outcome().unwrap()? {
            Outcome::Done => Ok(result.expect("the work has run")),
            other => panic!("expected nothing, got {:?}", other),
        }
    }
}

fn foo() -> Result<(), String> {
    Err("me..........".to_string())
}

fn bar() -> Result<(), String> {
    Err("me..........".to_string())
}

#[test]
fn test_set() {
    let mut kernel = Kernel::boot();
    let last_ns = kernel.get().unwrap();
    println!("cur_ns: {}", last_ns.unique_id());
    let new_ns = kernel.new_named("hello").unwrap();
    println!("set ns to hello");
    kernel.set(&new_ns).unwrap();
    let cur_ns = kernel.get().unwrap();
    println!("cur_ns: {}", cur_ns.unique_id());
    assert_eq!(cur_ns, new_ns);
    println!("set ns to last");
    kernel.set(&last_ns).unwrap();
    println!("cur_ns: {}", last_ns.unique_id());
    assert_eq!(kernel.get().unwrap(), last_ns);
}

#[test]
fn test_get_new_set_delete() {
    let mut kernel = Kernel::boot();
    let origins = kernel.get();
    assert!(origins.is_ok());
    let origin_netns = origins.unwrap();
    let netns = kernel.new();
    assert!(netns.is_ok());
    let netns = netns.unwrap();
    assert_ne!(netns, origin_netns);

    let res = kernel.set(&origin_netns);
    assert!(res.is_ok());

    let ns = kernel.get();
    assert!(ns.is_ok());
    let ns = ns.unwrap();
    assert_eq!(ns, origin_netns);
}

#[test]
fn test_named() {
    let mut kernel = Kernel::boot();
    let res = kernel.delete_named("test");
    assert!(res.is_ok());
    let netns = kernel.new_named("test");
    assert!(netns.is_ok());
    let netns = netns.unwrap();
    let netns2 = kernel.get_from_name("test");
    assert!(netns2.is_ok());
    let netns2 = netns2.unwrap();
    assert!(netns2.is_some());
    let netns2 = netns2.unwrap();
    println!("netns: {}, netns2: {}", netns.unique_id(), netns2.unique_id());
    assert_eq!(netns, netns2);
}

#[test]
fn test_exec_ns() {
    let mut kernel = Kernel::boot();
    let ns2 = kernel.get().unwrap();
    println!("ns2: {}", ns2.unique_id());
    let _ = kernel.delete_named("test1");
    let ns1 = kernel.new_named("test1").unwrap();
    println!("ns1: {}", ns1.unique_id());
    let result = kernel
        .exec(&ns2, &ns1, |kernel| -> Result<(), String> {
            let fn_ns = kernel.get().unwrap();
            println!("fn_ns: {}", fn_ns.unique_id());
            bar()?;
            foo()
        })
        .unwrap();
    let a = result;
    println!("result is : {:?}", a);
    assert_eq!(a, Err("me..........".to_string()));
    let ns3 = kernel.get().unwrap();
    println!("ns3: {}", ns3.unique_id());
    assert_eq!(ns3, ns2);
}

#[test]
fn anonymous_namespaces_differ() {
    let mut kernel = Kernel::boot();
    let first = kernel.new().unwrap();
    let second = kernel.new().unwrap();
    assert_ne!(first, second);
    assert_ne!(first.unique_id(), second.unique_id());
    assert_eq!(first.path(), None);
    assert_eq!(second.path(), None);
}

#[test]
fn attach_then_current_is_the_attached_namespace() {
    let mut kernel = Kernel::boot();
    let origin = kernel.get().unwrap();
    let target = kernel.new().unwrap();
    kernel.set(&origin).unwrap();
    assert_eq!(kernel.get().unwrap(), origin);
    kernel.set(&target).unwrap();
    let current = kernel.get().unwrap();
    assert_eq!(current, target);
    assert_ne!(current.fd(), target.fd());
}

#[test]
fn scope_returns_after_work_that_succeeds() {
    let mut kernel = Kernel::boot();
    let origin = kernel.get().unwrap();
    let target = kernel.new_named("green").unwrap();
    kernel.set(&origin).unwrap();
    kernel.log.clear();
    let seen = kernel
        .exec(&origin, &target, |kernel| Ok(kernel.get().unwrap().unique_id()))
        .unwrap();
    assert_eq!(seen, Ok(target.unique_id()));
    assert_eq!(kernel.get().unwrap(), origin);
    assert_eq!(kernel.log.first(), Some(&Request::Attach { fd: target.fd() }));
    assert_eq!(
        kernel.log[kernel.log.len() - 2],
        Request::Attach { fd: origin.fd() }
    );
}

#[test]
fn scope_returns_after_work_that_fails() {
    let mut kernel = Kernel::boot();
    let origin = kernel.get().unwrap();
    let target = kernel.new().unwrap();
    kernel.set(&origin).unwrap();
    let ended: Result<(), String> = kernel
        .exec(&origin, &target, |kernel| {
            assert_ne!(kernel.attached.ino, 4026531840);
            Err("no route".to_string())
        })
        .unwrap();
    assert_eq!(ended, Err("no route".to_string()));
    assert_eq!(kernel.get().unwrap(), origin);
}

#[test]
fn scope_does_not_run_work_it_cannot_enter_for() {
    let mut kernel = Kernel::boot();
    let origin = kernel.get().unwrap();
    let target = kernel.new().unwrap();
    kernel.set(&origin).unwrap();
    kernel.privileged = false;
    kernel.log.clear();
    let ended = kernel.exec(&origin, &target, |_| -> Result<(), String> {
        panic!("the work must not run")
    });
    assert_eq!(
        ended,
        Err(NetnsError::Failed {
            request: Request::Attach { fd: target.fd() },
            cause: Cause::Errno(EPERM),
        })
    );
    assert_eq!(kernel.log, vec![Request::Attach { fd: target.fd() }]);
    assert_eq!(kernel.attached, origin.id().unwrap());
}

#[test]
fn named_namespace_is_found_by_name() {
    let mut kernel = Kernel::boot();
    let made = kernel.new_named("x").unwrap();
    let found = kernel.get_from_name("x").unwrap().unwrap();
    assert_eq!(made, found);
    assert_eq!(made.path(), Some("/run/netns/x".to_string()));
    assert_eq!(found.path(), Some("/run/netns/x".to_string()));
    assert_ne!(made.fd(), found.fd());
    let by_path = kernel.get_from_path("/run/netns/x").unwrap().unwrap();
    assert_eq!(by_path, made);
}

#[test]
fn new_named_asks_in_order() {
    let mut kernel = Kernel::boot();
    let made = kernel.new_named("x").unwrap();
    assert_eq!(
        kernel.log,
        vec![
            Request::Exists { path: "/run/netns".to_string() },
            Request::CreateDir { path: "/run/netns".to_string(), mode: 0o755 },
            Request::CreateFile { path: "/run/netns/x".to_string(), mode: 0o444 },
            Request::Unshare,
            Request::Open { path: "/proc/4711/task/4720/ns/net".to_string() },
            Request::BindMount {
                source: "/proc/4711/task/4720/ns/net".to_string(),
                target: "/run/netns/x".to_string(),
            },
        ]
    );
    assert_eq!(made.id(), Some(kernel.attached));
    kernel.log.clear();
    kernel.new_named("y").unwrap();
    assert_eq!(kernel.log.len(), 5);
    assert_eq!(kernel.log[0], Request::Exists { path: "/run/netns".to_string() });
    assert_eq!(
        kernel.log[1],
        Request::CreateFile { path: "/run/netns/y".to_string(), mode: 0o444 }
    );
}

#[test]
fn taken_name_is_a_conflict_until_deleted() {
    let mut kernel = Kernel::boot();
    let first = kernel.new_named("x").unwrap();
    let before = kernel.attached;
    kernel.log.clear();
    let second = kernel.new_named("x");
    assert_eq!(
        second,
        Err(NetnsError::NameConflict { path: "/run/netns/x".to_string() })
    );
    assert_eq!(kernel.attached, before);
    assert_eq!(kernel.log.len(), 2);
    assert_eq!(kernel.get_from_name("x").unwrap().unwrap(), first);

    kernel.delete_named("x").unwrap();
    let third = kernel.new_named("x").unwrap();
    assert_ne!(third, first);
    assert_eq!(kernel.get_from_name("x").unwrap().unwrap(), third);
}

#[test]
fn deleting_a_missing_name_changes_nothing() {
    let mut kernel = Kernel::boot();
    kernel.new_named("kept").unwrap();
    let attached = kernel.attached;
    let entries = kernel.entries.clone();
    kernel.log.clear();
    assert_eq!(kernel.delete_named("nonexistent"), Ok(()));
    assert_eq!(
        kernel.log,
        vec![Request::Exists { path: "/run/netns/nonexistent".to_string() }]
    );
    assert_eq!(kernel.attached, attached);
    assert_eq!(kernel.entries, entries);
}

#[test]
fn deleting_a_name_keeps_the_namespace_for_open_handles() {
    let mut kernel = Kernel::boot();
    let origin = kernel.get().unwrap();
    let made = kernel.new_named("x").unwrap();
    kernel.set(&origin).unwrap();
    kernel.log.clear();
    kernel.delete_named("x").unwrap();
    assert_eq!(
        kernel.log,
        vec![
            Request::Exists { path: "/run/netns/x".to_string() },
            Request::Unmount { path: "/run/netns/x".to_string() },
            Request::RemoveFile { path: "/run/netns/x".to_string() },
        ]
    );
    assert_eq!(kernel.get_from_name("x"), Ok(None));
    kernel.set(&made).unwrap();
    assert_eq!(kernel.get().unwrap(), made);
}

#[test]
fn walkthrough_of_a_named_namespace() {
    let mut kernel = Kernel::boot();
    let a = kernel.get().unwrap();
    assert_eq!(a.unique_id(), "NS(4:4026531840)");

    let b = kernel.new_named("test").unwrap();
    assert_eq!(b.unique_id(), "NS(4:4026532001)");
    assert_ne!(a, b);

    kernel.set(&b).unwrap();
    assert_eq!(kernel.get().unwrap().unique_id(), "NS(4:4026532001)");

    kernel.set(&a).unwrap();
    assert_eq!(kernel.get().unwrap().unique_id(), "NS(4:4026531840)");

    kernel.delete_named("test").unwrap();
    assert!(!kernel.entries.contains_key("/run/netns/test"));
    assert_eq!(kernel.get_from_name("test"), Ok(None));
}

#[test]
fn unprivileged_allocation_is_refused_and_leaves_the_placeholder() {
    let mut kernel = Kernel::boot();
    kernel.privileged = false;
    let refused = kernel.new();
    assert_eq!(
        refused,
        Err(NetnsError::Failed { request: Request::Unshare, cause: Cause::Errno(EPERM) })
    );

    let refused = kernel.new_named("x");
    assert_eq!(
        refused,
        Err(NetnsError::Failed { request: Request::Unshare, cause: Cause::Errno(EPERM) })
    );
    assert_eq!(kernel.entries.get("/run/netns/x"), Some(&None));
    assert_eq!(
        kernel.new_named("x"),
        Err(NetnsError::NameConflict { path: "/run/netns/x".to_string() })
    );
}

#[test]
fn lookup_of_a_missing_path_is_absence() {
    let mut kernel = Kernel::boot();
    assert_eq!(kernel.get_from_path("/nowhere/at/all"), Ok(None));
    assert_eq!(kernel.get_from_name("ghost"), Ok(None));
    assert_eq!(
        kernel.log,
        vec![
            Request::Open { path: "/nowhere/at/all".to_string() },
            Request::Open { path: "/run/netns/ghost".to_string() },
        ]
    );
}

#[test]
fn a_placeholder_left_behind_is_deleted_and_the_name_is_free_again() {
    let mut kernel = Kernel::boot();
    let origin = kernel.get().unwrap();
    kernel.privileged = false;
    assert_eq!(
        kernel.new_named("x"),
        Err(NetnsError::Failed { request: Request::Unshare, cause: Cause::Errno(EPERM) })
    );
    assert_eq!(kernel.entries.get("/run/netns/x"), Some(&None));
    assert_eq!(
        kernel.new_named("x"),
        Err(NetnsError::NameConflict { path: "/run/netns/x".to_string() })
    );

    kernel.log.clear();
    assert_eq!(kernel.delete_named("x"), Ok(()));
    assert_eq!(
        kernel.log,
        vec![
            Request::Exists { path: "/run/netns/x".to_string() },
            Request::Unmount { path: "/run/netns/x".to_string() },
            Request::RemoveFile { path: "/run/netns/x".to_string() },
        ]
    );
    assert!(!kernel.entries.contains_key("/run/netns/x"));
    assert_eq!(kernel.attached, origin.id().unwrap());

    kernel.privileged = true;
    let made = kernel.new_named("x").unwrap();
    assert_ne!(made, origin);
    assert_eq!(made.path(), Some("/run/netns/x".to_string()));
    assert_eq!(kernel.get_from_name("x").unwrap().unwrap(), made);
}

#[test]
fn a_bind_mount_that_fails_leaves_a_placeholder_that_delete_removes() {
    let mut kernel = Kernel::boot();
    let mut op = Netns::new_named("x", kernel.task);
    let mut failed = None;
    while let Some(request) = op.request() {
        let reply = match &request {
            Request::BindMount { .. } => Reply::Failed(Cause::Errno(EPERM)),
            other => kernel.perform(other),
        };
        if let Reply::Failed(_) = reply {
            failed = Some(request.clone());
        }
        op = op.advance(reply);
    }
    assert!(matches!(failed, Some(Request::BindMount { .. })));
    assert!(matches!(op.outcome(), Some(Err(NetnsError::Failed { .. }))));
    assert_eq!(kernel.entries.get("/run/netns/x"), Some(&None));

    assert_eq!(kernel.delete_named("x"), Ok(()));
    assert!(!kernel.entries.contains_key("/run/netns/x"));
    assert!(kernel.new_named("x").is_ok());
}
