//! The namespace handle: what the library knows of one open reference to a
//! network namespace.

use vstd::prelude::*;
use vstd::std_specs::cmp::PartialEqSpec;
use vstd::string::StringExecFns;
use crate::ident::{
    identity_tag, is_same_namespace, lemma_tag_identifies, render_identity, same_namespace, NsId,
};
use crate::text::{decimal, push_decimal, push_signed_decimal, signed_decimal};

verus! {

/// An open reference to a network namespace. The driver holds the descriptor
/// itself; the handle records the descriptor's number, the identity read
/// from its metadata when it was opened, and the path it was opened by where
/// that path is a registry entry or was given by the caller.
#[derive(Debug)]
pub struct Netns {
    fd: i32,
    id: Option<NsId>,
    path: Option<String>,
}

/// A handle with its path as text.
pub struct NetnsView {
    pub fd: i32,
    pub id: Option<NsId>,
    pub path: Option<Seq<char>>,
}

impl View for Netns {
    type V = NetnsView;

    closed spec fn view(&self) -> NetnsView {
        NetnsView {
            fd: self.fd,
            id: self.id,
            path: match self.path {
                Some(path) => Some(path@),
                None => None,
            },
        }
    }
}

/// The text that shows a handle: `NS(<fd>: <device>, <inode>)`, or
/// `NS(<fd>: unknown)` where the metadata could not be read.
pub open spec fn display_text(handle: NetnsView) -> Seq<char> {
    match handle.id {
        Some(id) => "NS("@ + signed_decimal(handle.fd as int) + ": "@ + decimal(id.dev as nat)
            + ", "@ + decimal(id.ino as nat) + ")"@,
        None => "NS("@ + signed_decimal(handle.fd as int) + ": unknown)"@,
    }
}

impl Netns {
    /// The handle for a descriptor that the driver has opened.
    pub fn from_descriptor(fd: i32, id: Option<NsId>, path: Option<String>) -> (handle: Netns)
        ensures
            handle@.fd == fd,
            handle@.id == id,
            match path {
                Some(path) => handle@.path == Some(path@),
                None => handle@.path is None,
            },
    {
        Netns { fd, id, path }
    }

    /// The tag of the namespace's identity; it does not depend on the
    /// descriptor or the path.
    pub fn unique_id(&self) -> (tag: String)
        ensures
            tag@ == identity_tag(self@.id),
    {
        render_identity(self.id)
    }

    /// The descriptor's number.
    pub fn fd(&self) -> (fd: i32)
        ensures
            fd == self@.fd,
    {
        self.fd
    }

    /// The identity read from the descriptor's metadata, if it could be read.
    pub fn id(&self) -> (id: Option<NsId>)
        ensures
            id == self@.id,
    {
        self.id
    }

    /// The path the handle was opened by, if it has one.
    pub fn path(&self) -> (path: Option<String>)
        ensures
            match path {
                Some(path) => self@.path == Some(path@),
                None => self@.path is None,
            },
    {
        match &self.path {
            Some(path) => Some(path.clone()),
            None => None,
        }
    }

    /// The text that shows the handle.
    pub fn display(&self) -> (text: String)
        ensures
            text@ == display_text(self@),
    {
        let mut text = String::from_str("NS(");
        push_signed_decimal(&mut text, self.fd);
        match self.id {
            Some(id) => {
                text.append(": ");
                push_decimal(&mut text, id.dev);
                text.append(", ");
                push_decimal(&mut text, id.ino);
                text.append(")");
            },
            None => {
                text.append(": unknown)");
            },
        }
        text
    }
}

impl PartialEq for Netns {
    /// Two handles are equal when they denote one namespace, whatever their
    /// descriptors and paths.
    fn eq(&self, other: &Netns) -> (same: bool) {
        is_same_namespace(self.id, other.id)
    }
}

impl vstd::std_specs::cmp::PartialEqSpecImpl for Netns {
    open spec fn obeys_eq_spec() -> bool {
        true
    }

    open spec fn eq_spec(&self, other: &Netns) -> bool {
        same_namespace(self@.id, other@.id)
    }
}

/// Equality of handles is symmetric and transitive, as `==` must be. It is
/// reflexive on the handles whose metadata could be read, and on no other:
/// a handle of unknown identity equals nothing. Two handles are equal
/// exactly when the identity is known and their identity tags agree.
pub proof fn lemma_eq_is_by_identity(a: Netns, b: Netns, c: Netns)
    ensures
        a.eq_spec(&b) == b.eq_spec(&a),
        a.eq_spec(&b) && b.eq_spec(&c) ==> a.eq_spec(&c),
        a.eq_spec(&a) <==> a@.id is Some,
        a.eq_spec(&b) <==> a@.id is Some && identity_tag(a@.id) == identity_tag(b@.id),
{
    lemma_tag_identifies(a@.id, b@.id);
}

} // verus!
