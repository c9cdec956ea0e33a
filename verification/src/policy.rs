//! Header policy: name-based deny lists, one per direction.
//!
//! A header crosses the proxy iff its name, folded to lowercase, is not on
//! the deny list of that direction. The four transport-framing names —
//! `host`, `connection`, `content-length`, `transfer-encoding` — are always
//! denied in both directions: their values become invalid once the message
//! is re-framed by a new transport layer.

use vstd::prelude::*;
use crate::bytes::{ascii_bytes, ascii_seq, bytes_eq, lower_bytes, lower_seq};

verus! {

/// Direction of a header crossing the proxy.
#[derive(Clone, Copy, PartialEq, Eq, Structural, Debug)]
pub enum Direction {
    Request,
    Response,
}

pub open spec fn host_name() -> Seq<u8> {
    ascii_seq("host"@)
}

pub open spec fn connection_name() -> Seq<u8> {
    ascii_seq("connection"@)
}

pub open spec fn content_length_name() -> Seq<u8> {
    ascii_seq("content-length"@)
}

pub open spec fn transfer_encoding_name() -> Seq<u8> {
    ascii_seq("transfer-encoding"@)
}

/// The transport-framing header names (already lowercase).
pub open spec fn is_framing_name(n: Seq<u8>) -> bool {
    ||| n == host_name()
    ||| n == connection_name()
    ||| n == content_length_name()
    ||| n == transfer_encoding_name()
}

/// Membership of a lowercased name in a deny list.
pub open spec fn list_has(names: Seq<Vec<u8>>, name: Seq<u8>) -> bool {
    exists|i: int| 0 <= i < names.len() && names[i]@ == name
}

/// A deny list that holds all four framing names.
pub open spec fn list_wf(names: Seq<Vec<u8>>) -> bool {
    &&& list_has(names, host_name())
    &&& list_has(names, connection_name())
    &&& list_has(names, content_length_name())
    &&& list_has(names, transfer_encoding_name())
}

/// Two name-based deny lists, one per direction. Entries are stored
/// lowercased; a queried name is folded before it is looked up, so matching
/// is case-insensitive and exact.
#[derive(Debug)]
pub struct HeaderPolicy {
    pub request_deny: Vec<Vec<u8>>,
    pub response_deny: Vec<Vec<u8>>,
}

impl HeaderPolicy {
    /// The deny list of one direction.
    pub open spec fn deny_list(&self, dir: Direction) -> Seq<Vec<u8>> {
        match dir {
            Direction::Request => self.request_deny@,
            Direction::Response => self.response_deny@,
        }
    }

    /// Whether the policy denies `name` (in any casing) in direction `dir`.
    pub open spec fn denies(&self, dir: Direction, name: Seq<u8>) -> bool {
        list_has(self.deny_list(dir), lower_seq(name))
    }

    /// Well-formed: the framing names are denied in both directions.
    pub open spec fn wf(&self) -> bool {
        list_wf(self.request_deny@) && list_wf(self.response_deny@)
    }

    /// The minimal, protocol-correct policy: both directions deny exactly
    /// the four framing names.
    pub fn baseline() -> (p: HeaderPolicy)
        ensures
            p.wf(),
            forall|dir: Direction, n: Seq<u8>|
                #[trigger] p.denies(dir, n) <==> is_framing_name(lower_seq(n)),
    {
        let p = HeaderPolicy { request_deny: framing_list(), response_deny: framing_list() };
        proof {
            assert forall|dir: Direction, n: Seq<u8>|
                #[trigger] p.denies(dir, n) <==> is_framing_name(lower_seq(n)) by {
                let names = p.deny_list(dir);
                if is_framing_name(lower_seq(n)) {
                    if lower_seq(n) == host_name() {
                        assert(names[0]@ == lower_seq(n));
                    } else if lower_seq(n) == connection_name() {
                        assert(names[1]@ == lower_seq(n));
                    } else if lower_seq(n) == content_length_name() {
                        assert(names[2]@ == lower_seq(n));
                    } else {
                        assert(names[3]@ == lower_seq(n));
                    }
                }
            }
        }
        p
    }

    /// Add one name to the deny list of one direction. Anything already
    /// denied stays denied, so a well-formed policy stays well-formed.
    pub fn deny(&mut self, dir: Direction, name: Vec<u8>)
        ensures
            forall|d: Direction, n: Seq<u8>|
                #[trigger] final(self).denies(d, n) <==> old(self).denies(d, n) || (d == dir
                    && lower_seq(n) == lower_seq(name@)),
            old(self).wf() ==> final(self).wf(),
    {
        let ghost before = *self;
        let lowered = lower_bytes(&name);
        match dir {
            Direction::Request => self.request_deny.push(lowered),
            Direction::Response => self.response_deny.push(lowered),
        }
        proof {
            assert forall|d: Direction, n: Seq<u8>|
                #[trigger] self.denies(d, n) <==> before.denies(d, n) || (d == dir && lower_seq(n)
                    == lower_seq(name@)) by {
                let olds = before.deny_list(d);
                let news = self.deny_list(d);
                if d == dir {
                    assert(news =~= olds.push(lowered));
                    if before.denies(d, n) {
                        let i = choose|i: int| 0 <= i < olds.len() && olds[i]@ == lower_seq(n);
                        assert(news[i]@ == lower_seq(n));
                    }
                    if lower_seq(n) == lower_seq(name@) {
                        assert(news[olds.len() as int]@ == lower_seq(n));
                    }
                    if self.denies(d, n) {
                        let i = choose|i: int| 0 <= i < news.len() && news[i]@ == lower_seq(n);
                        if i < olds.len() {
                            assert(olds[i]@ == lower_seq(n));
                        }
                    }
                }
            }
            if before.wf() {
                lemma_list_wf_extends(before.deny_list(dir), self.deny_list(dir));
            }
        }
    }

    /// Whether a header with this name crosses the proxy in this direction.
    pub fn should_forward(&self, dir: Direction, name: &Vec<u8>) -> (r: bool)
        ensures
            r == !self.denies(dir, name@),
    {
        let lowered = lower_bytes(name);
        let names: &Vec<Vec<u8>> = match dir {
            Direction::Request => &self.request_deny,
            Direction::Response => &self.response_deny,
        };
        let mut i: usize = 0;
        while i < names.len()
            invariant
                i <= names.len(),
                names@ == self.deny_list(dir),
                lowered@ == lower_seq(name@),
                forall|j: int| 0 <= j < i ==> names@[j]@ != lowered@,
            decreases names.len() - i,
        {
            if bytes_eq(&names[i], &lowered) {
                proof {
                    assert(self.deny_list(dir)[i as int]@ == lower_seq(name@));
                }
                return false;
            }
            i = i + 1;
        }
        proof {
            assert(!self.denies(dir, name@));
        }
        true
    }
}

/// A fresh list holding exactly the four framing names.
fn framing_list() -> (r: Vec<Vec<u8>>)
    ensures
        r@.len() == 4,
        r@[0]@ == host_name(),
        r@[1]@ == connection_name(),
        r@[2]@ == content_length_name(),
        r@[3]@ == transfer_encoding_name(),
        forall|i: int| 0 <= i < 4 ==> is_framing_name(#[trigger] r@[i]@),
{
    proof {
        reveal_strlit("host");
        reveal_strlit("connection");
        reveal_strlit("content-length");
        reveal_strlit("transfer-encoding");
    }
    let mut r: Vec<Vec<u8>> = Vec::new();
    r.push(ascii_bytes("host"));
    r.push(ascii_bytes("connection"));
    r.push(ascii_bytes("content-length"));
    r.push(ascii_bytes("transfer-encoding"));
    r
}

/// A well-formed policy denies a framing name in both directions, whatever
/// the casing it is queried with.
pub proof fn lemma_framing_denied(policy: HeaderPolicy, dir: Direction, name: Seq<u8>)
    requires
        policy.wf(),
        is_framing_name(lower_seq(name)),
    ensures
        policy.denies(dir, name),
{
    let names = policy.deny_list(dir);
    if lower_seq(name) == host_name() {
        assert(list_has(names, lower_seq(name)));
    } else if lower_seq(name) == connection_name() {
        assert(list_has(names, lower_seq(name)));
    } else if lower_seq(name) == content_length_name() {
        assert(list_has(names, lower_seq(name)));
    } else {
        assert(list_has(names, lower_seq(name)));
    }
}

/// Everything a deny list holds is still there after entries are appended.
proof fn lemma_list_wf_extends(olds: Seq<Vec<u8>>, news: Seq<Vec<u8>>)
    requires
        list_wf(olds),
        olds.len() <= news.len(),
        forall|i: int| 0 <= i < olds.len() ==> news[i] == olds[i],
    ensures
        list_wf(news),
{
    assert forall|name: Seq<u8>| list_has(olds, name) implies list_has(news, name) by {
        let i = choose|i: int| 0 <= i < olds.len() && olds[i]@ == name;
        assert(news[i]@ == name);
    }
}

} // verus!
