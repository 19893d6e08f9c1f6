//! Base-128 variable-length integers (LEB128), the integer encoding of the
//! protobuf wire format. Encoding and decoding are done by `prost`; this module
//! states what they compute and proves the facts the codec needs.

use vstd::prelude::*;

verus! {

/// The canonical LEB128 encoding of `v`: seven bits per byte, least
/// significant group first, the high bit set on every byte but the last.
pub open spec fn varint(v: nat) -> Seq<u8>
    decreases v,
{
    if v < 128 {
        seq![v as u8]
    } else {
        seq![(v % 128 + 128) as u8] + varint(v / 128)
    }
}

/// The number that a run of LEB128 bytes spells, ignoring continuation bits.
pub open spec fn le128(s: Seq<u8>) -> nat
    decreases s.len(),
{
    if s.len() == 0 {
        0
    } else {
        (s[0] % 128) as nat + 128 * le128(s.drop_first())
    }
}

/// Index of the first byte at or after `i`, among the first ten, whose high
/// bit is clear.
pub open spec fn varint_end(s: Seq<u8>, i: nat) -> Option<nat>
    decreases 10 - i,
{
    if i >= 10 || i >= s.len() {
        None
    } else if s[i as int] < 128 {
        Some(i)
    } else {
        varint_end(s, i + 1)
    }
}

/// What decoding a varint at the start of `s` yields: its value and the number
/// of bytes it takes. A varint ends at the first byte below 128 among the
/// first ten; a tenth byte must be 0 or 1 for the value to fit in 64 bits.
pub open spec fn read_varint(s: Seq<u8>) -> Option<(nat, nat)> {
    match varint_end(s, 0) {
        Some(i) => if i == 9 && s[9] >= 2 {
            None
        } else {
            Some((le128(s.take((i + 1) as int)), i + 1))
        },
        None => None,
    }
}

pub open spec fn pow128(k: nat) -> nat
    decreases k,
{
    if k == 0 {
        1
    } else {
        128 * pow128((k - 1) as nat)
    }
}

#[verifier::external_type_specification]
#[verifier::external_body]
pub struct ExDecodeError(prost::DecodeError);

/// Relies on `prost::encoding::encode_varint`: appends the canonical LEB128
/// encoding of `v` to the buffer.
#[verifier::external_body]
pub(crate) fn push_varint(buf: &mut Vec<u8>, v: u64)
    ensures
        final(buf)@ == old(buf)@ + varint(v as nat),
{
    prost::encoding::encode_varint(v, buf)
}

/// Relies on `prost::encoding::decode_varint` on a byte slice: on success it
/// returns the value and advances the slice past the bytes it read.
#[verifier::external_body]
pub(crate) fn take_varint(bytes: &[u8]) -> (r: Result<(u64, &[u8]), prost::DecodeError>)
    ensures
        match r {
            Ok((v, rest)) => match read_varint(bytes@) {
                Some((value, n)) => value == v as nat && rest@ == bytes@.skip(n as int),
                None => false,
            },
            Err(_) => read_varint(bytes@) is None,
        },
{
    let mut cursor: &[u8] = bytes;
    match prost::encoding::decode_varint(&mut cursor) {
        Ok(v) => Ok((v, cursor)),
        Err(e) => Err(e),
    }
}

proof fn lemma_varint_shape(v: nat, k: nat)
    requires
        v < 2 * pow128(k),
    ensures
        1 <= varint(v).len() <= k + 1,
        varint(v).len() == k + 1 ==> varint(v).last() < 2,
        varint(v).last() < 128,
        forall|j: int| 0 <= j < varint(v).len() - 1 ==> varint(v)[j] >= 128,
        le128(varint(v)) == v,
    decreases v,
{
    if v >= 128 {
        if k == 0 {
            assert(pow128(0) == 1);
        } else {
            let p = pow128((k - 1) as nat);
            assert(pow128(k) == 128 * p);
            assert(v / 128 < 2 * p) by (nonlinear_arith)
                requires
                    v < 2 * (128 * p),
            ;
            lemma_varint_shape(v / 128, (k - 1) as nat);
            let t = varint(v / 128);
            let s = varint(v);
            assert(s == seq![(v % 128 + 128) as u8] + t);
            assert(s.drop_first() =~= t);
            assert forall|j: int| 0 <= j < s.len() - 1 implies s[j] >= 128 by {
                if j > 0 {
                    assert(s[j] == t[j - 1]);
                }
            }
            assert(s[0] == (v % 128 + 128) as u8);
            assert(s[0] % 128 == v % 128);
            assert(le128(s) == (s[0] % 128) as nat + 128 * le128(t));
            assert(v == v % 128 + 128 * (v / 128)) by (nonlinear_arith);
        }
    } else {
        assert(varint(v).drop_first() =~= Seq::<u8>::empty());
        assert(le128(Seq::<u8>::empty()) == 0);
        assert(le128(varint(v)) == (varint(v)[0] % 128) as nat + 128 * le128(varint(v).drop_first()));
    }
}

proof fn lemma_end(s: Seq<u8>, i: nat, e: nat)
    requires
        i <= e < 10,
        e < s.len(),
        s[e as int] < 128,
        forall|j: int| i <= j < e ==> s[j] >= 128,
    ensures
        varint_end(s, i) == Some(e),
    decreases e - i,
{
    if i < e {
        lemma_end(s, i + 1, e);
    }
}

/// Decoding reads back what encoding wrote, whatever follows it.
pub proof fn lemma_read_varint(v: u64, rest: Seq<u8>)
    ensures
        read_varint(varint(v as nat) + rest) == Some((v as nat, varint(v as nat).len())),
        1 <= varint(v as nat).len() <= 10,
{
    assert(pow128(9) == 9223372036854775808) by {
        reveal_with_fuel(pow128, 10);
    }
    lemma_varint_shape(v as nat, 9);
    let t = varint(v as nat);
    let s = t + rest;
    let e = (t.len() - 1) as nat;
    assert forall|j: int| 0 <= j < e implies s[j] >= 128 by {
        assert(s[j] == t[j]);
    }
    assert(s[e as int] == t.last());
    lemma_end(s, 0, e);
    assert(s.take((e + 1) as int) =~= t);
}

} // verus!
