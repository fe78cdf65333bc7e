//! BACnet Bit String values: an application tagged primitive whose first
//! content octet gives the number of unused bits (0-7) in the last octet,
//! followed by the bits themselves packed eight to an octet, first bit in
//! the most significant position, unused bits zero.

use vstd::prelude::*;

use super::{app_primitive_bytes, append_bytes, encode_app_primitive, EncodingError};
use super::tag::{tag_content_length, tag_decode, Tag, TagClass};

verus! {

/// The application tag number of a Bit String.
pub const BIT_STRING_TAG: u32 = 8;

/// The mask selecting bit `k` (0 = most significant) of an octet.
pub open spec fn bit_mask(k: u8) -> u8 {
    1u8 << ((7 - k) as u8)
}

/// Whether bit `k` (0 = most significant) of octet `b` is set.
pub open spec fn bit_at(b: u8, k: u8) -> bool {
    b & bit_mask(k) != 0
}

/// The octet holding bits `start .. start + k` of `bits`, those past the
/// end of `bits` counting as clear.
pub open spec fn octet_prefix(bits: Seq<bool>, start: int, k: nat) -> u8
    decreases k,
{
    if k == 0 {
        0
    } else {
        let prev = octet_prefix(bits, start, (k - 1) as nat);
        if start + k - 1 < bits.len() && bits[start + k - 1] {
            prev | bit_mask((k - 1) as u8)
        } else {
            prev
        }
    }
}

/// The `j`-th packed octet of `bits`.
pub open spec fn packed_octet(bits: Seq<bool>, j: int) -> u8 {
    octet_prefix(bits, 8 * j, 8)
}

/// The number of unused bits in the last octet of an `n`-bit string.
pub open spec fn unused_bit_count(n: nat) -> u8 {
    if n % 8 == 0 {
        0
    } else {
        (8 - n % 8) as u8
    }
}

/// The content octets of a bit string: the unused-bit count, then the
/// packed bits.
pub open spec fn bit_string_content(bits: Seq<bool>) -> Seq<u8> {
    seq![unused_bit_count(bits.len())] + Seq::new(((bits.len() + 7) / 8) as nat, |j: int| packed_octet(bits, j))
}

/// The octets of an application-tagged bit string.
pub open spec fn bit_string_bytes(bits: Seq<bool>) -> Seq<u8> {
    app_primitive_bytes(BIT_STRING_TAG, bit_string_content(bits))
}

/// The bits held by `octets`, the last `unused` bits of the last octet
/// left out.
pub open spec fn unpacked_bits(octets: Seq<u8>, unused: nat) -> Seq<bool> {
    if octets.len() == 0 {
        seq![]
    } else {
        Seq::new((8 * octets.len() - unused) as nat, |i: int| bit_at(octets[i / 8], (i % 8) as u8))
    }
}

/// The outcome of decoding a bit string from the start of `d`, less the
/// text of an `InvalidFormat` error: `Err(None)` stands for that error.
pub open spec fn bit_string_decode(d: Seq<u8>) -> Result<(Seq<bool>, usize), Option<EncodingError>> {
    match tag_decode(d) {
        Err(e) => Err(Some(e)),
        Ok((t, n)) => if t.class != TagClass::Application || t.number != BIT_STRING_TAG {
            Err(Some(EncodingError::InvalidTag))
        } else {
            let length: int = match tag_content_length(t) {
                Some(l) => l as int,
                None => 0,
            };
            if length == 0 || d.len() < n + length {
                Err(Some(EncodingError::BufferUnderflow))
            } else if d[n as int] > 7 {
                Err(None)
            } else {
                Ok((unpacked_bits(d.subrange(n + 1, n + length), d[n as int] as nat), (n + length) as usize))
            }
        },
    }
}

/// Setting bit `m` of an octet changes bit `j` only where `j == m`.
proof fn lemma_set_bit(p: u8, m: u8, j: u8)
    requires
        m < 8,
        j < 8,
    ensures
        bit_at(p | bit_mask(m), j) == (bit_at(p, j) || m == j),
        !bit_at(0, j),
{
    assert(((p | (1u8 << ((7 - m) as u8))) & (1u8 << ((7 - j) as u8)) != 0) == ((p & (1u8 << ((7 - j) as u8)) != 0)
        || m == j)) by (bit_vector)
        requires
            m < 8,
            j < 8,
    ;
    assert((0u8 & (1u8 << ((7 - j) as u8))) == 0) by (bit_vector)
        requires
            j < 8,
    ;
}

/// Bit `j` of a partly built octet is the `j`-th bit taken so far.
proof fn lemma_octet_prefix_bits(bits: Seq<bool>, start: int, k: nat, j: u8)
    requires
        k <= 8,
        j < 8,
    ensures
        bit_at(octet_prefix(bits, start, k), j) == ((j as int) < k && start + j < bits.len() && bits[start + j]),
    decreases k,
{
    if k == 0 {
        lemma_set_bit(0, 0, j);
    } else {
        lemma_octet_prefix_bits(bits, start, (k - 1) as nat, j);
        lemma_set_bit(octet_prefix(bits, start, (k - 1) as nat), (k - 1) as u8, j);
    }
}

/// The mask selecting bit `k` of an octet.
fn mask_of(k: u8) -> (r: u8)
    requires
        k < 8,
    ensures
        r == bit_mask(k),
{
    1u8 << (7 - k)
}

/// Packs bits `start .. start + 8` of `bits` into an octet.
fn pack_octet(bits: &[bool], start: usize) -> (r: u8)
    requires
        start <= bits@.len(),
    ensures
        r == octet_prefix(bits@, start as int, 8),
{
    let mut byte: u8 = 0;
    let mut k: u8 = 0;
    while k < 8
        invariant
            k <= 8,
            start <= bits@.len(),
            byte == octet_prefix(bits@, start as int, k as nat),
        decreases 8 - k,
    {
        if (k as usize) < bits.len() - start && bits[start + k as usize] {
            byte = byte | mask_of(k);
        }
        k = k + 1;
    }
    byte
}

/// Encode a BACnet bit string.
pub fn encode_bit_string(buffer: &mut Vec<u8>, bits: &[bool]) -> (r: Result<(), EncodingError>)
    requires
        bits@.len() <= 0x7_FFFF_FFF0,
    ensures
        r is Ok,
        final(buffer)@ == old(buffer)@ + bit_string_bytes(bits@),
{
    let n = bits.len();
    let byte_count = n / 8 + if n % 8 == 0 { 0 } else { 1 };
    let unused: u8 = if n % 8 == 0 { 0 } else { (8 - n % 8) as u8 };
    let mut content: Vec<u8> = Vec::new();
    content.push(unused);
    let mut j: usize = 0;
    while j < byte_count
        invariant
            n == bits@.len(),
            n <= 0x7_FFFF_FFF0,
            byte_count == (n + 7) / 8,
            j <= byte_count,
            content@ == seq![unused_bit_count(n as nat)] + Seq::new(j as nat, |i: int| packed_octet(bits@, i)),
        decreases byte_count - j,
    {
        let byte = pack_octet(bits, 8 * j);
        content.push(byte);
        j = j + 1;
        assert(content@ =~= seq![unused_bit_count(n as nat)] + Seq::new(j as nat, |i: int| packed_octet(bits@, i)));
    }
    assert(content@ =~= bit_string_content(bits@));
    encode_app_primitive(buffer, BIT_STRING_TAG, content.as_slice());
    Ok(())
}

/// Decode a BACnet bit string: its bits and the number of octets read. A
/// tag of another class or number is `InvalidTag`; empty content or a
/// length running past the end of `data` is `BufferUnderflow`; an unused
/// bit count above 7 is `InvalidFormat`.
pub fn decode_bit_string(data: &[u8]) -> (r: Result<(Vec<bool>, usize), EncodingError>)
    ensures
        match bit_string_decode(data@) {
            Err(Some(e)) => r == Err::<(Vec<bool>, usize), EncodingError>(e),
            Err(None) => r matches Err(EncodingError::InvalidFormat(_)),
            Ok((b, k)) => r matches Ok((v, n)) && v@ == b && n == k,
        },
{
    let (t, consumed) = Tag::decode(data)?;
    proof {
        super::lemma_tag_decode_within(data@);
    }
    if t.class != TagClass::Application || t.number != BIT_STRING_TAG {
        return Err(EncodingError::InvalidTag);
    }
    let length: usize = match t.content_length() {
        Some(l) => l as usize,
        None => 0,
    };
    if length == 0 || length > data.len() - consumed {
        return Err(EncodingError::BufferUnderflow);
    }
    let unused = data[consumed];
    if unused > 7 {
        return Err(EncodingError::InvalidFormat("Invalid unused bits count".to_string()));
    }
    let start = consumed + 1;
    let byte_count = length - 1;
    let ghost octets = data@.subrange(start as int, (consumed + length) as int);
    let mut bits: Vec<bool> = Vec::new();
    let mut i: usize = 0;
    while i < byte_count
        invariant
            start + byte_count <= data@.len(),
            octets == data@.subrange(start as int, (start + byte_count) as int),
            unused <= 7,
            i <= byte_count,
            start + byte_count <= data.len(),
            i < byte_count ==> bits@.len() == 8 * i,
            i == byte_count && i > 0 ==> bits@.len() == 8 * i - unused,
            i == 0 ==> bits@.len() == 0,
            forall|p: int| 0 <= p < bits@.len() ==> bits@[p] == bit_at(octets[p / 8], (p % 8) as u8),
        decreases byte_count - i,
    {
        let byte_val = data[start + i];
        let bits_in_byte: u8 = if i == byte_count - 1 { 8 - unused } else { 8 };
        let ghost base = bits@.len();
        let mut bit_pos: u8 = 0;
        while bit_pos < bits_in_byte
            invariant
                bits_in_byte <= 8,
                bit_pos <= bits_in_byte,
                base == 8 * i,
                bits@.len() == base + bit_pos,
                byte_val == octets[i as int],
                forall|p: int| 0 <= p < bits@.len() ==> bits@[p] == bit_at(octets[p / 8], (p % 8) as u8),
            decreases bits_in_byte - bit_pos,
        {
            bits.push((byte_val & mask_of(bit_pos)) != 0);
            proof {
                let p = bits@.len() - 1;
                assert(p / 8 == i && p % 8 == bit_pos) by (nonlinear_arith)
                    requires
                        p == 8 * i + bit_pos,
                        bit_pos < 8,
                ;
            }
            bit_pos = bit_pos + 1;
        }
        i = i + 1;
    }
    assert(bits@ =~= unpacked_bits(octets, unused as nat));
    Ok((bits, consumed + length))
}

/// Decoding an encoded bit string gives back its bits.
pub proof fn lemma_bit_string_round_trip(bits: Seq<bool>, rest: Seq<u8>)
    requires
        bits.len() <= 0x7_FFFF_FFF0,
    ensures
        bit_string_decode(bit_string_bytes(bits) + rest)
            == Ok::<(Seq<bool>, usize), Option<EncodingError>>((bits, bit_string_bytes(bits).len() as usize)),
{
    let c = bit_string_content(bits);
    let n = bits.len();
    let count: nat = ((n + 7) / 8) as nat;
    let t = Tag { number: BIT_STRING_TAG, class: TagClass::Application, value: super::tag::TagValue::Primitive(c.len() as u32) };
    let tb = super::tag::tag_bytes(t);
    let d = bit_string_bytes(bits) + rest;
    assert(d == tb + (c + rest));
    super::tag::lemma_tag_round_trip(t, c + rest);
    let m: int = tb.len() as int;
    assert(d.subrange(m, m + c.len()) == c);
    let octets = c.subrange(1, c.len() as int);
    assert(d.subrange(m + 1, m + c.len()) == octets);
    assert(octets =~= Seq::new(count, |j: int| packed_octet(bits, j)));
    let u = unused_bit_count(n);
    if n == 0 {
        assert(unpacked_bits(octets, u as nat) =~= bits);
    } else {
        assert(8 * count - u == n) by (nonlinear_arith)
            requires
                count == (n + 7) / 8,
                n > 0,
                u == (if n % 8 == 0 { 0 } else { 8 - n % 8 }),
        ;
        assert forall|i: int| 0 <= i < n implies bit_at(octets[i / 8], (i % 8) as u8) == bits[i] by {
            assert(0 <= i / 8 < count && 8 * (i / 8) + (i % 8) == i) by (nonlinear_arith)
                requires
                    0 <= i < n,
                    count == (n + 7) / 8,
            ;
            lemma_octet_prefix_bits(bits, 8 * (i / 8), 8, (i % 8) as u8);
        }
        assert(unpacked_bits(octets, u as nat) =~= bits);
    }
}

} // verus!
