//! Identity, naming and switching of Linux network namespaces.
//!
//! Every operation is a value that names one request at a time and moves on
//! with the reply. What is asked, in which order, and how each operation
//! ends is stated and proved for every reply. Requests that need the kernel
//! alone are carried out here; files and descriptors belong to a driver of
//! the caller's, which answers the rest.

pub mod consequence;
pub mod drive;
pub mod error;
pub mod handle;
pub mod ident;
pub mod kernel;
pub mod operation;
pub mod path;
pub mod request;
pub mod task;
pub mod text;
pub mod trace;

pub use drive::{drive, drive_on};
pub use error::NetnsError;
pub use handle::Netns;
pub use ident::NsId;
pub use operation::{exec_netns, Operation, Outcome};
pub use path::{Registry, BIND_MOUNT_PATH};
pub use request::{Cause, Reply, Request};
pub use task::Task;
