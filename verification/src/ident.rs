//! The identity that the kernel gives a network namespace.

use vstd::prelude::*;
use vstd::string::StringExecFns;
use crate::text::{decimal, is_digit, lemma_decimal_is_digits, lemma_decimal_is_injective, push_decimal};

verus! {

/// The `(device, inode)` pair under which the kernel exposes one namespace,
/// as read from the metadata of a descriptor that is open on it.
#[derive(Clone, Copy, Debug, PartialEq, Eq, Structural)]
pub struct NsId {
    pub dev: u64,
    pub ino: u64,
}

/// Whether two metadata readings denote one namespace: both readings
/// succeeded and the pairs agree. A reading that failed equals nothing, not
/// even itself.
pub open spec fn same_namespace(a: Option<NsId>, b: Option<NsId>) -> bool {
    a is Some && b is Some && a->0.dev == b->0.dev && a->0.ino == b->0.ino
}

/// The tag that names an identity: `NS(<device>:<inode>)`, or `NS(unknown)`
/// where the metadata could not be read.
pub open spec fn identity_tag(id: Option<NsId>) -> Seq<char> {
    match id {
        Some(id) => "NS("@ + decimal(id.dev as nat) + ":"@ + decimal(id.ino as nat) + ")"@,
        None => "NS(unknown)"@,
    }
}

/// Compares two metadata readings.
pub fn is_same_namespace(a: Option<NsId>, b: Option<NsId>) -> (same: bool)
    ensures
        same == same_namespace(a, b),
{
    match (a, b) {
        (Some(x), Some(y)) => x.dev == y.dev && x.ino == y.ino,
        _ => false,
    }
}

/// Renders the tag of an identity.
pub fn render_identity(id: Option<NsId>) -> (tag: String)
    ensures
        tag@ == identity_tag(id),
{
    match id {
        Some(id) => {
            let mut tag = String::from_str("NS(");
            push_decimal(&mut tag, id.dev);
            tag.append(":");
            push_decimal(&mut tag, id.ino);
            tag.append(")");
            tag
        },
        None => String::from_str("NS(unknown)"),
    }
}

/// The tag names the identity and nothing else: two readings have the same
/// tag exactly when they are the same reading, and they denote one
/// namespace exactly when the metadata was read and the tags agree.
pub proof fn lemma_tag_identifies(a: Option<NsId>, b: Option<NsId>)
    ensures
        identity_tag(a) == identity_tag(b) <==> a == b,
        same_namespace(a, b) <==> a is Some && identity_tag(a) == identity_tag(b),
{
    reveal_strlit("NS(");
    reveal_strlit(":");
    reveal_strlit(")");
    reveal_strlit("NS(unknown)");
    match (a, b) {
        (Some(p), Some(q)) => {
            if identity_tag(a) == identity_tag(b) {
                lemma_pairs_agree(p, q);
            }
        },
        (Some(p), None) => {
            lemma_tag_starts_with_digit(p);
            assert(identity_tag(b)[3] == 'u');
        },
        (None, Some(q)) => {
            lemma_tag_starts_with_digit(q);
            assert(identity_tag(a)[3] == 'u');
        },
        (None, None) => {},
    }
}

/// After its opening, the tag of a known identity goes on with a digit.
proof fn lemma_tag_starts_with_digit(p: NsId)
    ensures
        identity_tag(Some(p)).len() > 3,
        is_digit(identity_tag(Some(p))[3]),
{
    reveal_strlit("NS(");
    reveal_strlit(":");
    reveal_strlit(")");
    lemma_decimal_is_digits(p.dev as nat);
    let x = decimal(p.dev as nat);
    assert(identity_tag(Some(p))[3] == x[0]);
}

/// Two known identities with one tag are one identity: the separator can
/// stand in one place only, since the numerals hold no separator.
proof fn lemma_pairs_agree(p: NsId, q: NsId)
    requires
        identity_tag(Some(p)) == identity_tag(Some(q)),
    ensures
        p == q,
{
    reveal_strlit("NS(");
    reveal_strlit(":");
    reveal_strlit(")");
    let x = decimal(p.dev as nat);
    let y = decimal(p.ino as nat);
    let v = decimal(q.dev as nat);
    let w = decimal(q.ino as nat);
    let s = identity_tag(Some(p));
    let t = identity_tag(Some(q));
    let m = x.len() as int;
    let n = v.len() as int;
    lemma_decimal_is_digits(p.dev as nat);
    lemma_decimal_is_digits(p.ino as nat);
    lemma_decimal_is_digits(q.dev as nat);
    lemma_decimal_is_digits(q.ino as nat);
    assert(s.len() == 3 + x.len() + 1 + y.len() + 1);
    assert(t.len() == 3 + v.len() + 1 + w.len() + 1);
    assert(s[3 + m] == ':');
    assert(t[3 + n] == ':');
    if m < n {
        assert(t[3 + m] == v[m]);
        assert(is_digit(v[m]));
    }
    if n < m {
        assert(s[3 + n] == x[n]);
        assert(is_digit(x[n]));
    }
    assert(m == n);
    assert(x =~= v) by {
        assert forall|i: int| 0 <= i < m implies x[i] == v[i] by {
            assert(s[3 + i] == x[i]);
            assert(t[3 + i] == v[i]);
        }
    }
    assert(y =~= w) by {
        assert forall|i: int| 0 <= i < y.len() implies y[i] == w[i] by {
            assert(s[3 + m + 1 + i] == y[i]);
            assert(t[3 + n + 1 + i] == w[i]);
        }
    }
    lemma_decimal_is_injective(p.dev as nat, q.dev as nat);
    lemma_decimal_is_injective(p.ino as nat, q.ino as nat);
}

} // verus!
