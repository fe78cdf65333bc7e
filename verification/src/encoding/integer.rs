//! BACnet Unsigned and Signed Integer encoding and decoding.
//!
//! Both are primitive, at least one contents octet long, most significant
//! octet first, and in the smallest number of octets possible: unsigned
//! values are plain binary, signed values two's complement.

use vstd::prelude::*;

use super::tag::{lemma_tag_round_trip, tag_bytes, Tag, TagClass, TagValue};
use super::{
    app_content, app_primitive_bytes, append_bytes, context_content, context_primitive_bytes,
    decode_app_content, encode_app_primitive, encode_context_tag, lemma_app_content_round_trip,
    lemma_context_content_round_trip, EncodingError,
};

verus! {

/// 256 raised to the power `n`.
pub open spec fn pow256(n: nat) -> nat
    decreases n,
{
    if n == 0 {
        1
    } else {
        256 * pow256((n - 1) as nat)
    }
}

/// The unsigned value of a big-endian octet sequence.
pub open spec fn be_value(s: Seq<u8>) -> nat
    decreases s.len(),
{
    if s.len() == 0 {
        0
    } else {
        be_value(s.drop_last()) * 256 + (s.last() as nat)
    }
}

/// The two's complement value of a big-endian octet sequence.
pub open spec fn be_signed(s: Seq<u8>) -> int {
    if s.len() > 0 && s[0] >= 128 {
        be_value(s) - pow256(s.len())
    } else {
        be_value(s) as int
    }
}

/// The shortest big-endian octet sequence (at least one octet) whose
/// unsigned value is `v`.
pub open spec fn unsigned_bytes(v: nat) -> Seq<u8>
    decreases v,
{
    if v < 256 {
        seq![v as u8]
    } else {
        unsigned_bytes(v / 256).push((v % 256) as u8)
    }
}

/// The shortest big-endian octet sequence that, read as two's complement,
/// has the non-negative value `w` (its first octet is below 128).
pub open spec fn nonneg_signed_bytes(w: nat) -> Seq<u8>
    decreases w,
{
    if w < 128 {
        seq![w as u8]
    } else {
        nonneg_signed_bytes(w / 256).push((w % 256) as u8)
    }
}

/// The shortest big-endian two's complement octet sequence for `v`.
pub open spec fn signed_bytes(v: int) -> Seq<u8> {
    if v >= 0 {
        nonneg_signed_bytes(v as nat)
    } else {
        nonneg_signed_bytes((-1 - v) as nat).map_values(|b: u8| (255 - b) as u8)
    }
}

pub proof fn lemma_pow256_pos(n: nat)
    ensures
        pow256(n) >= 1,
    decreases n,
{
    if n > 0 {
        lemma_pow256_pos((n - 1) as nat);
    }
}

/// The value of an octet sequence is below 256 to the power of its length.
pub proof fn lemma_be_value_bound(s: Seq<u8>)
    ensures
        be_value(s) < pow256(s.len()),
    decreases s.len(),
{
    if s.len() > 0 {
        lemma_be_value_bound(s.drop_last());
        assert(be_value(s.drop_last()) + 1 <= pow256((s.len() - 1) as nat));
        assert((be_value(s.drop_last()) + 1) * 256 <= pow256((s.len() - 1) as nat) * 256)
            by (nonlinear_arith)
            requires
                be_value(s.drop_last()) + 1 <= pow256((s.len() - 1) as nat),
        ;
    }
}

/// A single octet reads as itself.
proof fn lemma_be_value_single(s: Seq<u8>)
    requires
        s.len() == 1,
    ensures
        be_value(s) == s[0],
{
    assert(s.drop_last().len() == 0);
    assert(be_value(s.drop_last()) == 0);
}

/// Appending an octet scales the value by 256 and adds the octet.
proof fn lemma_be_value_push(p: Seq<u8>, b: u8)
    ensures
        be_value(p.push(b)) == be_value(p) * 256 + b,
{
    assert(p.push(b).drop_last() == p);
}

/// 256 to the power of one more.
proof fn lemma_pow256_succ(n: nat)
    ensures
        pow256(n + 1) == 256 * pow256(n),
{
}

/// 256 to the first power.
proof fn lemma_pow256_one()
    ensures
        pow256(1) == 256,
{
    reveal_with_fuel(pow256, 2);
}

/// An octet sequence whose first octet is below 128 has a value below half
/// of 256 to the power of its length.
proof fn lemma_be_value_small_first(s: Seq<u8>)
    requires
        s.len() > 0,
        s[0] < 128,
    ensures
        2 * be_value(s) < pow256(s.len()),
    decreases s.len(),
{
    if s.len() == 1 {
        lemma_be_value_single(s);
        lemma_pow256_one();
    } else {
        let t = s.drop_last();
        assert(t[0] == s[0]);
        lemma_be_value_small_first(t);
        assert(s == t.push(s.last()));
        lemma_be_value_push(t, s.last());
        let p = pow256((t.len() - 1) as nat);
        lemma_pow256_succ((t.len() - 1) as nat);
        lemma_pow256_succ(t.len());
        let bt = be_value(t);
        let l = s.last() as int;
        assert(2 * (bt * 256 + l) < 256 * (256 * p)) by (nonlinear_arith)
            requires
                2 * bt < 256 * p,
                0 <= l < 256,
        ;
    }
}

/// An octet sequence whose first octet is at least 128 has a value of at
/// least half of 256 to the power of its length.
proof fn lemma_be_value_big_first(s: Seq<u8>)
    requires
        s.len() > 0,
        s[0] >= 128,
    ensures
        2 * be_value(s) >= pow256(s.len()),
    decreases s.len(),
{
    if s.len() == 1 {
        lemma_be_value_single(s);
        lemma_pow256_one();
    } else {
        let t = s.drop_last();
        assert(t[0] == s[0]);
        lemma_be_value_big_first(t);
        assert(s == t.push(s.last()));
        lemma_be_value_push(t, s.last());
        lemma_pow256_succ(t.len());
        let bt = be_value(t);
        let l = s.last() as int;
        assert(2 * (bt * 256 + l) >= 256 * pow256(t.len())) by (nonlinear_arith)
            requires
                2 * bt >= pow256(t.len()),
                0 <= l,
        ;
    }
}

/// The minimal unsigned encoding reads back as its value, and never starts
/// with a redundant zero.
pub proof fn lemma_unsigned_bytes(v: nat)
    ensures
        be_value(unsigned_bytes(v)) == v,
        unsigned_bytes(v).len() >= 1,
        v > 0 ==> unsigned_bytes(v)[0] != 0,
    decreases v,
{
    if v >= 256 {
        lemma_unsigned_bytes(v / 256);
        let p = unsigned_bytes(v / 256);
        let s = p.push((v % 256) as u8);
        assert(s[0] == p[0]);
        lemma_be_value_push(p, (v % 256) as u8);
    } else {
        lemma_be_value_single(unsigned_bytes(v));
    }
}

/// A value below 256 to the power `k` (k at least one) has a minimal
/// unsigned encoding of at most `k` octets.
pub proof fn lemma_unsigned_bytes_len(v: nat, k: nat)
    requires
        k >= 1,
        v < pow256(k),
    ensures
        unsigned_bytes(v).len() <= k,
    decreases v,
{
    if v >= 256 {
        if k == 1 {
            lemma_pow256_one();
        } else {
            lemma_pow256_succ((k - 1) as nat);
            assert(v / 256 < pow256((k - 1) as nat)) by (nonlinear_arith)
                requires
                    v < 256 * pow256((k - 1) as nat),
            ;
            lemma_unsigned_bytes_len(v / 256, (k - 1) as nat);
        }
    }
}

/// The minimal non-negative signed encoding reads back as its value, starts
/// with an octet below 128, and has no redundant leading zero.
proof fn lemma_nonneg_signed_bytes(w: nat)
    ensures
        be_value(nonneg_signed_bytes(w)) == w,
        nonneg_signed_bytes(w).len() >= 1,
        nonneg_signed_bytes(w)[0] < 128,
        nonneg_signed_bytes(w).len() > 1 ==> (nonneg_signed_bytes(w)[0] != 0
            || nonneg_signed_bytes(w)[1] >= 128),
    decreases w,
{
    if w >= 128 {
        lemma_nonneg_signed_bytes(w / 256);
        let p = nonneg_signed_bytes(w / 256);
        let s = p.push((w % 256) as u8);
        assert(s[0] == p[0]);
        lemma_be_value_push(p, (w % 256) as u8);
        if p.len() == 1 {
            lemma_be_value_single(p);
            if p[0] == 0 {
                assert(w / 256 == 0);
                assert(s[1] == (w % 256) as u8);
            }
        } else {
            assert(s[1] == p[1]);
        }
    } else {
        lemma_be_value_single(nonneg_signed_bytes(w));
    }
}

/// A value below half of 256 to the power `k` has a minimal non-negative
/// signed encoding of at most `k` octets.
proof fn lemma_nonneg_signed_bytes_len(w: nat, k: nat)
    requires
        k >= 1,
        2 * w < pow256(k),
    ensures
        nonneg_signed_bytes(w).len() <= k,
    decreases w,
{
    if w >= 128 {
        if k == 1 {
            lemma_pow256_one();
        } else {
            lemma_pow256_succ((k - 1) as nat);
            assert(2 * (w / 256) < pow256((k - 1) as nat)) by (nonlinear_arith)
                requires
                    2 * w < 256 * pow256((k - 1) as nat),
            ;
            lemma_nonneg_signed_bytes_len(w / 256, (k - 1) as nat);
        }
    }
}

/// Complementing every octet of a sequence complements its value.
proof fn lemma_be_value_complement(s: Seq<u8>)
    ensures
        be_value(s.map_values(|b: u8| (255 - b) as u8)) == pow256(s.len()) - 1 - be_value(s),
    decreases s.len(),
{
    let c = s.map_values(|b: u8| (255 - b) as u8);
    if s.len() > 0 {
        let t = s.drop_last();
        lemma_be_value_complement(t);
        let ct = t.map_values(|b: u8| (255 - b) as u8);
        assert(c == ct.push((255 - s.last()) as u8));
        lemma_be_value_push(ct, (255 - s.last()) as u8);
        assert(s == t.push(s.last()));
        lemma_be_value_push(t, s.last());
        lemma_pow256_succ(t.len());
    } else {
        assert(c.len() == 0);
    }
}

/// The minimal signed encoding reads back as its value, in two's
/// complement, and is never longer than needed.
pub proof fn lemma_signed_bytes(v: int)
    ensures
        be_signed(signed_bytes(v)) == v,
        signed_bytes(v).len() >= 1,
        signed_bytes(v).len() > 1 ==> !((signed_bytes(v)[0] == 0 && signed_bytes(v)[1] < 128)
            || (signed_bytes(v)[0] == 255 && signed_bytes(v)[1] >= 128)),
{
    if v >= 0 {
        lemma_nonneg_signed_bytes(v as nat);
    } else {
        let w = (-1 - v) as nat;
        let p = nonneg_signed_bytes(w);
        lemma_nonneg_signed_bytes(w);
        lemma_be_value_complement(p);
        let s = signed_bytes(v);
        assert(s.len() == p.len());
        assert(s[0] == 255 - p[0]);
        if p.len() > 1 {
            assert(s[1] == 255 - p[1]);
        }
    }
}

/// A value whose double lies in [-256^k, 256^k) has a minimal signed
/// encoding of at most `k` octets.
pub proof fn lemma_signed_bytes_len(v: int, k: nat)
    requires
        k >= 1,
        -pow256(k) <= 2 * v < pow256(k),
    ensures
        signed_bytes(v).len() <= k,
{
    if v >= 0 {
        lemma_nonneg_signed_bytes_len(v as nat, k);
    } else {
        lemma_nonneg_signed_bytes_len((-1 - v) as nat, k);
    }
}

/// 256 to the eighth power is 2^64.
pub proof fn lemma_pow256_8()
    ensures
        pow256(8) == 0x1_0000_0000_0000_0000,
        pow256(4) == 0x1_0000_0000,
{
    reveal_with_fuel(pow256, 9);
}

/// The minimal big-endian octets of an unsigned value.
pub fn minimal_unsigned_bytes(value: u64) -> (r: Vec<u8>)
    ensures
        r@ == unsigned_bytes(value as nat),
    decreases value,
{
    if value < 256 {
        let mut r: Vec<u8> = Vec::new();
        r.push(value as u8);
        r
    } else {
        let mut r = minimal_unsigned_bytes(value / 256);
        r.push((value % 256) as u8);
        r
    }
}

/// The minimal big-endian octets of a non-negative value in two's complement.
fn minimal_nonneg_signed_bytes(value: u64) -> (r: Vec<u8>)
    ensures
        r@ == nonneg_signed_bytes(value as nat),
    decreases value,
{
    if value < 128 {
        let mut r: Vec<u8> = Vec::new();
        r.push(value as u8);
        r
    } else {
        let mut r = minimal_nonneg_signed_bytes(value / 256);
        r.push((value % 256) as u8);
        r
    }
}

/// The minimal big-endian two's complement octets of a signed value.
pub fn minimal_signed_bytes(value: i64) -> (r: Vec<u8>)
    ensures
        r@ == signed_bytes(value as int),
{
    if value >= 0 {
        minimal_nonneg_signed_bytes(value as u64)
    } else {
        let w: u64 = (-1 - (value as i128)) as u64;
        let p = minimal_nonneg_signed_bytes(w);
        let mut r: Vec<u8> = Vec::new();
        let mut i: usize = 0;
        while i < p.len()
            invariant
                i <= p@.len(),
                r@ == p@.subrange(0, i as int).map_values(|b: u8| (255 - b) as u8),
            decreases p@.len() - i,
        {
            r.push(255 - p[i]);
            i = i + 1;
            assert(p@.subrange(0, i as int).map_values(|b: u8| (255 - b) as u8)
                == p@.subrange(0, i - 1 as int).map_values(|b: u8| (255 - b) as u8).push((255 - p@[i - 1]) as u8));
        }
        assert(p@.subrange(0, i as int) == p@);
        r
    }
}

/// The unsigned value of 0-8 big-endian octets.
pub fn decode_unsigned_content(bytes: &[u8]) -> (r: u64)
    requires
        bytes@.len() <= 8,
    ensures
        r as nat == be_value(bytes@),
{
    let mut acc: u64 = 0;
    let mut i: usize = 0;
    while i < bytes.len()
        invariant
            i <= bytes@.len() <= 8,
            acc as nat == be_value(bytes@.subrange(0, i as int)),
        decreases bytes@.len() - i,
    {
        let ghost prefix = bytes@.subrange(0, i + 1 as int);
        assert(prefix.drop_last() == bytes@.subrange(0, i as int));
        proof {
            lemma_be_value_bound(bytes@.subrange(0, i as int));
            lemma_pow256_le_8(i as nat);
        }
        acc = acc * 256 + bytes[i] as u64;
        i = i + 1;
    }
    assert(bytes@.subrange(0, i as int) == bytes@);
    acc
}

/// 256 to the power of at most seven is small enough to scale by 256 in 64 bits.
proof fn lemma_pow256_le_8(n: nat)
    requires
        n <= 7,
    ensures
        pow256(n) * 256 <= 0x1_0000_0000_0000_0000,
{
    reveal_with_fuel(pow256, 8);
    if n == 0 {
    } else if n == 1 {
    } else if n == 2 {
    } else if n == 3 {
    } else if n == 4 {
    } else if n == 5 {
    } else if n == 6 {
    } else {
    }
}

/// 256 to the power `n` for n at most 8, computed exactly.
fn pow256_exec(n: usize) -> (r: u128)
    requires
        n <= 8,
    ensures
        r as nat == pow256(n as nat),
{
    let mut r: u128 = 1;
    let mut i: usize = 0;
    while i < n
        invariant
            i <= n <= 8,
            r as nat == pow256(i as nat),
            r <= 0x1_0000_0000_0000_0000,
        decreases n - i,
    {
        proof {
            lemma_pow256_le_8(i as nat);
        }
        r = r * 256;
        i = i + 1;
    }
    r
}

/// The two's complement value of 1-8 big-endian octets.
pub fn decode_signed_content(bytes: &[u8]) -> (r: i64)
    requires
        1 <= bytes@.len() <= 8,
    ensures
        r as int == be_signed(bytes@),
{
    let u = decode_unsigned_content(bytes);
    proof {
        lemma_be_value_bound(bytes@);
    }
    if bytes[0] >= 128 {
        let p = pow256_exec(bytes.len());
        proof {
            lemma_be_value_big_first(bytes@);
            lemma_pow256_le_8((bytes@.len() - 1) as nat);
            lemma_pow256_succ((bytes@.len() - 1) as nat);
        }
        ((u as i128) - (p as i128)) as i64
    } else {
        proof {
            lemma_be_value_small_first(bytes@);
            lemma_pow256_le_8((bytes@.len() - 1) as nat);
            lemma_pow256_succ((bytes@.len() - 1) as nat);
        }
        u as i64
    }
}

/// Encode a BACnet unsigned integer.
pub fn encode_unsigned(buffer: &mut Vec<u8>, value: u32) -> (r: Result<(), EncodingError>)
    ensures
        r is Ok,
        final(buffer)@ == old(buffer)@ + app_primitive_bytes(2, unsigned_bytes(value as nat)),
{
    let bytes = minimal_unsigned_bytes(value as u64);
    proof {
        lemma_unsigned_bytes(value as nat);
        lemma_pow256_8();
        lemma_unsigned_bytes_len(value as nat, 8);
    }
    encode_app_primitive(buffer, 2, bytes.as_slice());
    Ok(())
}

/// Encode a BACnet unsigned integer from a `u64`.
pub fn encode_unsigned64(buffer: &mut Vec<u8>, value: u64)
    ensures
        final(buffer)@ == old(buffer)@ + app_primitive_bytes(2, unsigned_bytes(value as nat)),
{
    let bytes = minimal_unsigned_bytes(value);
    proof {
        lemma_unsigned_bytes(value as nat);
        lemma_pow256_8();
        lemma_unsigned_bytes_len(value as nat, 8);
    }
    encode_app_primitive(buffer, 2, bytes.as_slice());
}

/// Encode a BACnet signed integer.
pub fn encode_signed(buffer: &mut Vec<u8>, value: i32) -> (r: Result<(), EncodingError>)
    ensures
        r is Ok,
        final(buffer)@ == old(buffer)@ + app_primitive_bytes(3, signed_bytes(value as int)),
{
    let bytes = minimal_signed_bytes(value as i64);
    proof {
        lemma_signed_bytes(value as int);
        lemma_pow256_8();
        lemma_signed_bytes_len(value as int, 8);
    }
    encode_app_primitive(buffer, 3, bytes.as_slice());
    Ok(())
}

/// Encode a BACnet signed integer from an `i64`.
pub fn encode_signed64(buffer: &mut Vec<u8>, value: i64)
    ensures
        final(buffer)@ == old(buffer)@ + app_primitive_bytes(3, signed_bytes(value as int)),
{
    let bytes = minimal_signed_bytes(value);
    proof {
        lemma_signed_bytes(value as int);
        lemma_pow256_8();
        lemma_signed_bytes_len(value as int, 8);
    }
    encode_app_primitive(buffer, 3, bytes.as_slice());
}

/// What decoding an application-tagged integer of tag `number`, with at
/// most `max_len` content octets, gives: its content octets and the octets
/// consumed, or the error met.
pub open spec fn int_decode(d: Seq<u8>, number: u32, max_len: nat) -> Result<(Seq<u8>, usize), EncodingError> {
    match app_content(d, number) {
        Err(e) => Err(e),
        Ok((c, k)) => if 1 <= c.len() <= max_len {
            Ok((c, k))
        } else {
            Err(EncodingError::InvalidLength)
        },
    }
}

/// Shared decoding of an application-tagged integer's content octets.
fn decode_int_content(data: &[u8], number: u32, max_len: usize) -> (r: Result<(usize, usize), EncodingError>)
    requires
        1 <= max_len <= 8,
    ensures
        match int_decode(data@, number, max_len as nat) {
            Err(e) => r == Err::<(usize, usize), EncodingError>(e),
            Ok((c, k)) => r matches Ok((start, end)) && start <= end == k <= data@.len()
                && data@.subrange(start as int, end as int) == c,
        },
{
    let (start, end) = decode_app_content(data, number)?;
    let length = end - start;
    if length < 1 || length > max_len {
        return Err(EncodingError::InvalidLength);
    }
    Ok((start, end))
}

/// Decode a BACnet unsigned integer.
pub fn decode_unsigned(data: &[u8]) -> (r: Result<(u32, usize), EncodingError>)
    ensures
        match int_decode(data@, 2, 4) {
            Err(e) => r == Err::<(u32, usize), EncodingError>(e),
            Ok((c, k)) => r == Ok::<(u32, usize), EncodingError>((be_value(c) as u32, k)),
        },
{
    let (start, end) = decode_int_content(data, 2, 4)?;
    let value = decode_unsigned_content(vstd::slice::slice_subrange(data, start, end));
    Ok((value as u32, end))
}

/// Decode a BACnet unsigned integer into a `u64`.
pub fn decode_unsigned64(data: &[u8]) -> (r: Result<(u64, usize), EncodingError>)
    ensures
        match int_decode(data@, 2, 8) {
            Err(e) => r == Err::<(u64, usize), EncodingError>(e),
            Ok((c, k)) => r == Ok::<(u64, usize), EncodingError>((be_value(c) as u64, k)),
        },
{
    let (start, end) = decode_int_content(data, 2, 8)?;
    let value = decode_unsigned_content(vstd::slice::slice_subrange(data, start, end));
    Ok((value, end))
}

/// Decode a BACnet signed integer.
pub fn decode_signed(data: &[u8]) -> (r: Result<(i32, usize), EncodingError>)
    ensures
        match int_decode(data@, 3, 4) {
            Err(e) => r == Err::<(i32, usize), EncodingError>(e),
            Ok((c, k)) => r == Ok::<(i32, usize), EncodingError>((be_signed(c) as i32, k)),
        },
{
    let (start, end) = decode_int_content(data, 3, 4)?;
    let value = decode_signed_content(vstd::slice::slice_subrange(data, start, end));
    Ok((value as i32, end))
}

/// Decode a BACnet signed integer into an `i64`.
pub fn decode_signed64(data: &[u8]) -> (r: Result<(i64, usize), EncodingError>)
    ensures
        match int_decode(data@, 3, 8) {
            Err(e) => r == Err::<(i64, usize), EncodingError>(e),
            Ok((c, k)) => r == Ok::<(i64, usize), EncodingError>((be_signed(c) as i64, k)),
        },
{
    let (start, end) = decode_int_content(data, 3, 8)?;
    let value = decode_signed_content(vstd::slice::slice_subrange(data, start, end));
    Ok((value, end))
}

/// Encode a BACnet enumerated value (application tag 9).
pub fn encode_enumerated(buffer: &mut Vec<u8>, value: u32) -> (r: Result<(), EncodingError>)
    ensures
        r is Ok,
        final(buffer)@ == old(buffer)@ + app_primitive_bytes(9, unsigned_bytes(value as nat)),
{
    let bytes = minimal_unsigned_bytes(value as u64);
    proof {
        lemma_unsigned_bytes(value as nat);
        lemma_pow256_8();
        lemma_unsigned_bytes_len(value as nat, 8);
    }
    encode_app_primitive(buffer, 9, bytes.as_slice());
    Ok(())
}

/// Decode a BACnet enumerated value (application tag 9).
pub fn decode_enumerated(data: &[u8]) -> (r: Result<(u32, usize), EncodingError>)
    ensures
        match int_decode(data@, 9, 4) {
            Err(e) => r == Err::<(u32, usize), EncodingError>(e),
            Ok((c, k)) => r == Ok::<(u32, usize), EncodingError>((be_value(c) as u32, k)),
        },
{
    let (start, end) = decode_int_content(data, 9, 4)?;
    let value = decode_unsigned_content(vstd::slice::slice_subrange(data, start, end));
    Ok((value as u32, end))
}

/// Encode a context-specific unsigned integer.
pub fn encode_context_unsigned(value: u32, tag_number: u8) -> (r: Result<Vec<u8>, EncodingError>)
    ensures
        tag_number <= 254 ==> (r matches Ok(b) && b@ == context_primitive_bytes(tag_number, unsigned_bytes(value as nat))),
        tag_number > 254 ==> r matches Err(EncodingError::ValueOutOfRange),
{
    let mut buffer: Vec<u8> = Vec::new();
    let bytes = minimal_unsigned_bytes(value as u64);
    proof {
        lemma_unsigned_bytes(value as nat);
    }
    encode_context_tag(&mut buffer, tag_number, bytes.len())?;
    append_bytes(&mut buffer, bytes.as_slice());
    Ok(buffer)
}

/// Encode a context-specific signed integer.
pub fn encode_context_signed(value: i32, tag_number: u8) -> (r: Result<Vec<u8>, EncodingError>)
    ensures
        tag_number <= 254 ==> (r matches Ok(b) && b@ == context_primitive_bytes(tag_number, signed_bytes(value as int))),
        tag_number > 254 ==> r matches Err(EncodingError::ValueOutOfRange),
{
    let mut buffer: Vec<u8> = Vec::new();
    let bytes = minimal_signed_bytes(value as i64);
    proof {
        lemma_signed_bytes(value as int);
    }
    encode_context_tag(&mut buffer, tag_number, bytes.len())?;
    append_bytes(&mut buffer, bytes.as_slice());
    Ok(buffer)
}

/// Decode a context-specific unsigned integer; an empty content decodes as 0.
pub fn decode_context_unsigned(data: &[u8], expected_tag: u8) -> (r: Result<(u32, usize), EncodingError>)
    ensures
        match context_content(data@, expected_tag) {
            Err(e) => r == Err::<(u32, usize), EncodingError>(e),
            Ok((c, k)) => if c.len() <= 4 {
                r == Ok::<(u32, usize), EncodingError>((be_value(c) as u32, k))
            } else {
                r matches Err(EncodingError::InvalidLength)
            },
        },
{
    let (start, end) = super::decode_context_content(data, expected_tag)?;
    if end - start > 4 {
        return Err(EncodingError::InvalidLength);
    }
    let value = decode_unsigned_content(vstd::slice::slice_subrange(data, start, end));
    Ok((value as u32, end))
}

/// Decode a context-specific signed integer.
pub fn decode_context_signed(data: &[u8], expected_tag: u8) -> (r: Result<(i32, usize), EncodingError>)
    ensures
        match context_content(data@, expected_tag) {
            Err(e) => r == Err::<(i32, usize), EncodingError>(e),
            Ok((c, k)) => if 1 <= c.len() <= 4 {
                r == Ok::<(i32, usize), EncodingError>((be_signed(c) as i32, k))
            } else {
                r matches Err(EncodingError::InvalidLength)
            },
        },
{
    let (start, end) = super::decode_context_content(data, expected_tag)?;
    if end - start < 1 || end - start > 4 {
        return Err(EncodingError::InvalidLength);
    }
    let value = decode_signed_content(vstd::slice::slice_subrange(data, start, end));
    Ok((value as i32, end))
}

/// Decoding what `encode_unsigned64` wrote, followed by anything, gives back
/// the value and the length of its encoding.
pub proof fn lemma_unsigned_round_trip(v: u64, rest: Seq<u8>)
    ensures
        ({
            let enc = app_primitive_bytes(2, unsigned_bytes(v as nat));
            &&& int_decode(enc + rest, 2, 8) == Ok::<(Seq<u8>, usize), EncodingError>(
                (unsigned_bytes(v as nat), enc.len() as usize),
            )
            &&& be_value(unsigned_bytes(v as nat)) == v
            &&& (v <= 0xFFFF_FFFF ==> int_decode(enc + rest, 2, 4) == Ok::<(Seq<u8>, usize), EncodingError>(
                (unsigned_bytes(v as nat), enc.len() as usize),
            ))
        }),
{
    lemma_unsigned_bytes(v as nat);
    lemma_pow256_8();
    lemma_unsigned_bytes_len(v as nat, 8);
    if v <= 0xFFFF_FFFF {
        lemma_unsigned_bytes_len(v as nat, 4);
    }
    lemma_app_content_round_trip(2, unsigned_bytes(v as nat), rest);
}

/// Decoding what `encode_signed64` wrote, followed by anything, gives back
/// the value and the length of its encoding.
pub proof fn lemma_signed_round_trip(v: i64, rest: Seq<u8>)
    ensures
        ({
            let enc = app_primitive_bytes(3, signed_bytes(v as int));
            &&& int_decode(enc + rest, 3, 8) == Ok::<(Seq<u8>, usize), EncodingError>(
                (signed_bytes(v as int), enc.len() as usize),
            )
            &&& be_signed(signed_bytes(v as int)) == v
            &&& (i32::MIN <= v <= i32::MAX ==> int_decode(enc + rest, 3, 4) == Ok::<(Seq<u8>, usize), EncodingError>(
                (signed_bytes(v as int), enc.len() as usize),
            ))
        }),
{
    lemma_signed_bytes(v as int);
    lemma_pow256_8();
    lemma_signed_bytes_len(v as int, 8);
    if i32::MIN <= v <= i32::MAX {
        lemma_signed_bytes_len(v as int, 4);
    }
    lemma_app_content_round_trip(3, signed_bytes(v as int), rest);
}

/// Decoding a context-tagged unsigned integer written by
/// `encode_context_unsigned` gives back the value.
pub proof fn lemma_context_unsigned_round_trip(v: u32, tag_number: u8, rest: Seq<u8>)
    requires
        tag_number <= 254,
    ensures
        ({
            let enc = context_primitive_bytes(tag_number, unsigned_bytes(v as nat));
            &&& context_content(enc + rest, tag_number) == Ok::<(Seq<u8>, usize), EncodingError>(
                (unsigned_bytes(v as nat), enc.len() as usize),
            )
            &&& unsigned_bytes(v as nat).len() <= 4
            &&& be_value(unsigned_bytes(v as nat)) == v
        }),
{
    lemma_unsigned_bytes(v as nat);
    lemma_pow256_8();
    lemma_unsigned_bytes_len(v as nat, 4);
    lemma_context_content_round_trip(tag_number, unsigned_bytes(v as nat), rest);
}

/// Decoding a context-tagged signed integer written by
/// `encode_context_signed` gives back the value.
pub proof fn lemma_context_signed_round_trip(v: i32, tag_number: u8, rest: Seq<u8>)
    requires
        tag_number <= 254,
    ensures
        ({
            let enc = context_primitive_bytes(tag_number, signed_bytes(v as int));
            &&& context_content(enc + rest, tag_number) == Ok::<(Seq<u8>, usize), EncodingError>(
                (signed_bytes(v as int), enc.len() as usize),
            )
            &&& 1 <= signed_bytes(v as int).len() <= 4
            &&& be_signed(signed_bytes(v as int)) == v
        }),
{
    lemma_signed_bytes(v as int);
    lemma_pow256_8();
    lemma_signed_bytes_len(v as int, 4);
    lemma_context_content_round_trip(tag_number, signed_bytes(v as int), rest);
}

} // verus!
