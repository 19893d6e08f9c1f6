//! Reading protobuf fields one at a time. A field is a key (field number and
//! wire type) and a value whose extent the wire type gives. Fields that a
//! message does not know are skipped by their wire type, groups included, as
//! `prost` does: a top-level message is read with a nesting budget of 100,
//! a message nested in it with 99, and each field inside a group spends one
//! more level.

use crate::varint::{read_varint, take_varint, varint_end};
use vstd::prelude::*;

verus! {

/// A field key at the start of `s`: its number and wire type, and the bytes
/// after it. The key must fit in 32 bits, the number be at least 1, and the
/// wire type be one of the six protobuf defines.
pub open spec fn read_key(s: Seq<u8>) -> Option<(nat, nat, Seq<u8>)> {
    match read_varint(s) {
        None => None,
        Some((k, n)) => if k > u32::MAX || k / 8 == 0 || k % 8 > 5 {
            None
        } else {
            Some((k / 8, k % 8, s.skip(n as int)))
        },
    }
}

/// A value of wire type varint, fixed64, length-delimited or fixed32 at the
/// start of `r`: its value (a varint, or the length of a length-delimited
/// value; 0 for fixed widths), its payload bytes, and the bytes after it.
pub open spec fn plain_value(wire: nat, r: Seq<u8>) -> Option<(nat, Seq<u8>, Seq<u8>)> {
    if wire == 0 {
        match read_varint(r) {
            Some((v, m)) => Some((v, Seq::empty(), r.skip(m as int))),
            None => None,
        }
    } else if wire == 1 {
        if r.len() >= 8 {
            Some((0, r.take(8), r.skip(8)))
        } else {
            None
        }
    } else if wire == 2 {
        match read_varint(r) {
            Some((l, m)) => if l <= r.skip(m as int).len() {
                Some((l, r.skip(m as int).take(l as int), r.skip(m as int).skip(l as int)))
            } else {
                None
            },
            None => None,
        }
    } else if wire == 5 {
        if r.len() >= 4 {
            Some((0, r.take(4), r.skip(4)))
        } else {
            None
        }
    } else {
        None
    }
}

/// Skips the inside of a group opened by field `tag`, up to and including
/// the end-group key with the same number; returns the bytes after it.
/// Each field inside costs one level of the nesting `budget`, which must not
/// be spent.
pub open spec fn skip_group(s: Seq<u8>, tag: nat, budget: nat) -> Option<Seq<u8>>
    decreases s.len(),
{
    match read_key(s) {
        None => None,
        Some((t, w, r)) => if r.len() >= s.len() {
            None
        } else if w == 4 {
            if t == tag {
                Some(r)
            } else {
                None
            }
        } else if budget == 0 {
            None
        } else if w == 3 {
            match skip_group(r, t, (budget - 1) as nat) {
                Some(r2) => if r2.len() < r.len() {
                    skip_group(r2, tag, budget)
                } else {
                    None
                },
                None => None,
            }
        } else {
            match plain_value(w, r) {
                Some((v, p, r2)) => if r2.len() < r.len() {
                    skip_group(r2, tag, budget)
                } else {
                    None
                },
                None => None,
            }
        }
    }
}

/// One field read from the start of `s`, in a message read with nesting
/// budget `budget`: its number, its wire type, its value, its payload bytes,
/// and the bytes after it. A group carries no value nor payload; an
/// end-group key outside a group is malformed.
pub open spec fn next_field(s: Seq<u8>, budget: nat) -> Option<(nat, nat, nat, Seq<u8>, Seq<u8>)> {
    match read_key(s) {
        None => None,
        Some((tag, wire, r)) => if wire == 3 {
            if budget == 0 {
                None
            } else {
                match skip_group(r, tag, (budget - 1) as nat) {
                    Some(r2) => Some((tag, 3, 0, Seq::empty(), r2)),
                    None => None,
                }
            }
        } else {
            match plain_value(wire, r) {
                Some((v, p, r2)) => Some((tag, wire, v, p, r2)),
                None => None,
            }
        },
    }
}

/// A 32-bit word read least significant byte first.
pub open spec fn le32_value(s: Seq<u8>) -> nat {
    s[0] as nat + 256 * (s[1] as nat + 256 * (s[2] as nat + 256 * s[3] as nat))
}

/// Kinds of nested message in the schema: one without fields, one with a
/// state (field 1, varint), and one with a state and a duty cycle (field 2,
/// fixed32).
pub open spec fn inner_step(kind: nat, acc: (u64, u32), tag: nat, wire: nat, v: nat, p: Seq<u8>) -> Option<(u64, u32)> {
    if tag == 1 && kind >= 1 {
        if wire == 0 {
            Some((v as u64, acc.1))
        } else {
            None
        }
    } else if tag == 2 && kind == 2 {
        if wire == 5 {
            Some((acc.0, le32_value(p) as u32))
        } else {
            None
        }
    } else {
        Some(acc)
    }
}

/// Reads a nested message of the given kind, starting from the field values
/// `acc`; a later field overrides an earlier one. `None` if it is malformed.
pub open spec fn scan_inner(s: Seq<u8>, kind: nat, acc: (u64, u32)) -> Option<(u64, u32)>
    decreases s.len(),
{
    if s.len() == 0 {
        Some(acc)
    } else {
        match next_field(s, 99) {
            None => None,
            Some((tag, wire, v, p, r)) => if r.len() < s.len() {
                match inner_step(kind, acc, tag, wire, v, p) {
                    Some(a) => scan_inner(r, kind, a),
                    None => None,
                }
            } else {
                None
            },
        }
    }
}

proof fn lemma_end_bound(s: Seq<u8>, i: nat)
    ensures
        varint_end(s, i) matches Some(e) ==> i <= e < s.len(),
    decreases 10 - i,
{
    if i < 10 && i < s.len() && s[i as int] >= 128 {
        lemma_end_bound(s, i + 1);
    }
}

/// A varint takes at least one byte and no more than there are.
pub proof fn lemma_read_varint_len(s: Seq<u8>)
    ensures
        read_varint(s) matches Some((v, n)) ==> 1 <= n <= s.len(),
{
    lemma_end_bound(s, 0);
}

pub(crate) fn read_le32(t: &[u8]) -> (r: u32)
    requires
        t@.len() == 4,
    ensures
        r as nat == le32_value(t@),
{
    let b0 = t[0] as u32;
    let b1 = t[1] as u32;
    let b2 = t[2] as u32;
    let b3 = t[3] as u32;
    let hi = b2 + 256 * b3;
    let mid = b1 + 256 * hi;
    b0 + 256 * mid
}

/// Relies on `prost::encoding::decode_key` on a byte slice: it reads the key
/// varint, refuses a key above 32 bits, a wire type above 5 or a field number
/// 0, and on success advances the slice past the key. The wire type is
/// handed back as its protobuf value.
#[verifier::external_body]
fn decode_key_at(s: &[u8]) -> (r: Result<(u32, u64, &[u8]), prost::DecodeError>)
    ensures
        match r {
            Ok((tag, wire, rest)) => read_key(s@) == Some((tag as nat, wire as nat, rest@)),
            Err(_) => read_key(s@) is None,
        },
{
    let mut cursor: &[u8] = s;
    match prost::encoding::decode_key(&mut cursor) {
        Ok((tag, wire)) => Ok((tag, wire as u64, cursor)),
        Err(e) => Err(e),
    }
}

fn take_key(s: &[u8]) -> (r: Option<(u64, u64, &[u8])>)
    ensures
        match r {
            None => read_key(s@) is None,
            Some((tag, wire, rest)) => read_key(s@) == Some((tag as nat, wire as nat, rest@))
                && rest@.len() < s@.len(),
        },
{
    proof {
        lemma_read_varint_len(s@);
    }
    match decode_key_at(s) {
        Err(_) => None,
        Ok((tag, wire, rest)) => Some((tag as u64, wire, rest)),
    }
}

fn take_plain_value(wire: u64, r: &[u8]) -> (res: Option<(u64, &[u8], &[u8])>)
    ensures
        match res {
            None => plain_value(wire as nat, r@) is None,
            Some((v, p, rest)) => plain_value(wire as nat, r@) == Some((v as nat, p@, rest@))
                && rest@.len() < r@.len(),
        },
{
    proof {
        lemma_read_varint_len(r@);
    }
    if wire == 0 {
        match take_varint(r) {
            Err(_) => None,
            Ok((v, rest)) => Some((v, &r[0..0], rest)),
        }
    } else if wire == 1 {
        if r.len() >= 8 {
            let p = &r[0..8];
            let rest = &r[8..r.len()];
            assert(p@ =~= r@.take(8));
            assert(rest@ =~= r@.skip(8));
            Some((0, p, rest))
        } else {
            None
        }
    } else if wire == 2 {
        match take_varint(r) {
            Err(_) => None,
            Ok((l, q)) => {
                proof {
                    lemma_read_varint_len(r@);
                }
                if l <= q.len() as u64 {
                    let n = l as usize;
                    let p = &q[0..n];
                    let rest = &q[n..q.len()];
                    assert(p@ =~= q@.take(n as int));
                    assert(rest@ =~= q@.skip(n as int));
                    Some((l, p, rest))
                } else {
                    None
                }
            },
        }
    } else if wire == 5 {
        if r.len() >= 4 {
            let p = &r[0..4];
            let rest = &r[4..r.len()];
            assert(p@ =~= r@.take(4));
            assert(rest@ =~= r@.skip(4));
            Some((0, p, rest))
        } else {
            None
        }
    } else {
        None
    }
}

/// Skips the inside of a group; see `skip_group`.
fn skip_group_bytes(s: &[u8], tag: u64, budget: u64) -> (r: Option<&[u8]>)
    ensures
        match r {
            None => skip_group(s@, tag as nat, budget as nat) is None,
            Some(rest) => skip_group(s@, tag as nat, budget as nat) == Some(rest@)
                && rest@.len() < s@.len(),
        },
    decreases s@.len(),
{
    let mut cur = s;
    loop
        invariant
            skip_group(s@, tag as nat, budget as nat) == skip_group(cur@, tag as nat, budget as nat),
            cur@.len() <= s@.len(),
        decreases cur@.len(),
    {
        let (t, w, r) = match take_key(cur) {
            None => return None,
            Some(x) => x,
        };
        if w == 4 {
            if t == tag {
                return Some(r);
            }
            return None;
        }
        if budget == 0 {
            return None;
        }
        if w == 3 {
            match skip_group_bytes(r, t, budget - 1) {
                None => return None,
                Some(r2) => cur = r2,
            }
        } else {
            match take_plain_value(w, r) {
                None => return None,
                Some((_, _, r2)) => cur = r2,
            }
        }
    }
}

/// Reads the field at the start of `s`, in a message read with nesting
/// budget `budget`.
pub(crate) fn take_next_field(s: &[u8], budget: u64) -> (r: Option<(u64, u64, u64, &[u8], &[u8])>)
    ensures
        match r {
            None => next_field(s@, budget as nat) is None,
            Some((tag, wire, v, p, rest)) => next_field(s@, budget as nat) == Some(
                (tag as nat, wire as nat, v as nat, p@, rest@),
            ) && rest@.len() < s@.len(),
        },
{
    let (tag, wire, r) = match take_key(s) {
        None => return None,
        Some(x) => x,
    };
    if wire == 3 {
        if budget == 0 {
            return None;
        }
        match skip_group_bytes(r, tag, budget - 1) {
            None => None,
            Some(r2) => Some((tag, 3, 0, &r[0..0], r2)),
        }
    } else {
        match take_plain_value(wire, r) {
            None => None,
            Some((v, p, r2)) => Some((tag, wire, v, p, r2)),
        }
    }
}

/// Reads a whole nested message of the given kind.
pub(crate) fn read_inner(s: &[u8], kind: u64, acc: (u64, u32)) -> (r: Option<(u64, u32)>)
    ensures
        r == scan_inner(s@, kind as nat, acc),
{
    let mut cur = s;
    let mut a = acc;
    while cur.len() > 0
        invariant
            scan_inner(s@, kind as nat, acc) == scan_inner(cur@, kind as nat, a),
        decreases cur@.len(),
    {
        match take_next_field(cur, 99) {
            None => return None,
            Some((tag, wire, v, p, rest)) => {
                if tag == 1 && kind >= 1 {
                    if wire != 0 {
                        return None;
                    }
                    a = (v, a.1);
                } else if tag == 2 && kind == 2 {
                    if wire != 5 {
                        return None;
                    }
                    a = (a.0, read_le32(p));
                }
                cur = rest;
            },
        }
    }
    Some(a)
}

} // verus!
