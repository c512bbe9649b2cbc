//! The words of requests, causes and errors.

use netns::{Cause, NetnsError, Reply, Request};

#[test]
fn each_request_says_what_it_asks_for() {
    let cases = [
        (Request::Exists { path: "/run/netns".to_string() }, "probing /run/netns"),
        (
            Request::CreateDir { path: "/run/netns".to_string(), mode: 0o755 },
            "creating directory /run/netns",
        ),
        (
            Request::CreateFile { path: "/run/netns/x".to_string(), mode: 0o444 },
            "creating file /run/netns/x",
        ),
        (Request::Unshare, "unsharing the network namespace"),
        (
            Request::Open { path: "/proc/1/task/1/ns/net".to_string() },
            "opening /proc/1/task/1/ns/net",
        ),
        (
            Request::BindMount {
                source: "/proc/1/task/1/ns/net".to_string(),
                target: "/run/netns/x".to_string(),
            },
            "bind-mounting /proc/1/task/1/ns/net onto /run/netns/x",
        ),
        (Request::Unmount { path: "/run/netns/x".to_string() }, "unmounting /run/netns/x"),
        (Request::RemoveFile { path: "/run/netns/x".to_string() }, "removing /run/netns/x"),
        (Request::Attach { fd: 7 }, "attaching to the namespace of descriptor 7"),
        (Request::Attach { fd: -1 }, "attaching to the namespace of descriptor -1"),
        (Request::Work, "running the work"),
    ];
    for (request, text) in cases {
        assert_eq!(request.describe(), text);
    }
}

#[test]
fn each_cause_says_why() {
    assert_eq!(Cause::AlreadyExists.describe(), "the file exists");
    assert_eq!(Cause::Errno(1).describe(), "error 1");
    assert_eq!(Cause::Errno(13).describe(), "error 13");
    assert_eq!(Cause::Errno(0).describe(), "error 0");
    assert_eq!(Cause::Errno(-5).describe(), "error -5");
    assert_eq!(Cause::Other.describe(), "unknown cause");
}

#[test]
fn each_error_names_the_request_and_the_path() {
    assert_eq!(
        NetnsError::NameConflict { path: "/run/netns/x".to_string() }.message(),
        "the name is taken: /run/netns/x already exists"
    );
    assert_eq!(
        NetnsError::Failed { request: Request::Unshare, cause: Cause::Errno(1) }.message(),
        "unsharing the network namespace failed: error 1"
    );
    assert_eq!(
        NetnsError::Failed {
            request: Request::BindMount {
                source: "/proc/9/task/11/ns/net".to_string(),
                target: "/run/netns/blue".to_string(),
            },
            cause: Cause::Errno(16),
        }
        .message(),
        "bind-mounting /proc/9/task/11/ns/net onto /run/netns/blue failed: error 16"
    );
    assert_eq!(
        NetnsError::Failed {
            request: Request::CreateDir { path: "/run/netns".to_string(), mode: 0o755 },
            cause: Cause::Other,
        }
        .message(),
        "creating directory /run/netns failed: unknown cause"
    );
    assert_eq!(
        NetnsError::Failed {
            request: Request::CreateFile { path: "".to_string(), mode: 0o444 },
            cause: Cause::AlreadyExists,
        }
        .message(),
        "creating file  failed: the file exists"
    );
    assert_eq!(
        NetnsError::Unexpected { request: Request::Attach { fd: 3 } }.message(),
        "attaching to the namespace of descriptor 3 was answered out of turn"
    );
    assert_eq!(
        NetnsError::WrongThread { source: "/proc/9/task/11/ns/net".to_string() }.message(),
        "the operation was opened for another thread: /proc/9/task/11/ns/net is not the \
         namespace file of this thread"
    );
}

#[test]
fn refusing_a_reply_builds_the_error_for_it() {
    let request = Request::Open { path: "/run/netns/x".to_string() };
    assert_eq!(
        NetnsError::refuse(request.clone(), Reply::Failed(Cause::Errno(2))),
        NetnsError::Failed { request: request.clone(), cause: Cause::Errno(2) }
    );
    assert_eq!(
        NetnsError::refuse(request.clone(), Reply::Done),
        NetnsError::Unexpected { request: request.clone() }
    );
    assert_eq!(
        NetnsError::refuse(request.clone(), Reply::Found(true)),
        NetnsError::Unexpected { request }
    );
}
