//! Checksums and object identifier packing shared by the layers.

use vstd::prelude::*;

use crate::encoding::EncodingError;

verus! {

/// One bit step of the reflected CRC-16 with polynomial 0x8408.
pub open spec fn crc16_bit(crc: u16) -> u16 {
    if crc & 1 != 0 {
        (crc >> 1u16) ^ 0x8408u16
    } else {
        crc >> 1u16
    }
}

/// `n` bit steps of the CRC-16.
pub open spec fn crc16_bits(crc: u16, n: nat) -> u16
    decreases n,
{
    if n == 0 {
        crc
    } else {
        crc16_bits(crc16_bit(crc), (n - 1) as nat)
    }
}

/// The CRC-16 register after taking in `data`, starting from `crc`.
pub open spec fn crc16_register(crc: u16, data: Seq<u8>) -> u16
    decreases data.len(),
{
    if data.len() == 0 {
        crc
    } else {
        crc16_register(crc16_bits(crc ^ (data[0] as u16), 8), data.drop_first())
    }
}

/// The MS/TP data CRC of `data`: the reflected CRC-16 with polynomial
/// 0x8408 (CRC-CCITT), register starting at 0xFFFF, result complemented.
pub open spec fn crc16_mstp_spec(data: Seq<u8>) -> u16 {
    !crc16_register(0xFFFF, data)
}

/// The CRC-16 step is that of the generator x^16 + x^12 + x^5 + 1 taken
/// bit-reflected (0x8408): it is linear, and a register whose lowest bit
/// differs moves to one that differs by the generator.
pub proof fn lemma_crc16_step_generator(x: u16, y: u16)
    ensures
        crc16_bit(x ^ y) == crc16_bit(x) ^ crc16_bit(y),
        crc16_bit(x) ^ crc16_bit(x ^ 1u16) == 0x8408u16,
        crc16_bit(x & 0xFFFEu16) == x >> 1u16,
{
    assert(crc16_bit(x ^ y) == crc16_bit(x) ^ crc16_bit(y)) by (bit_vector);
    assert(crc16_bit(x) ^ crc16_bit(x ^ 1u16) == 0x8408u16) by (bit_vector);
    assert(crc16_bit(x & 0xFFFEu16) == x >> 1u16) by (bit_vector);
}

/// Eight bit steps of the CRC-16, written out.
pub open spec fn crc16_byte_steps(x: u16) -> u16 {
    crc16_bit(crc16_bit(crc16_bit(crc16_bit(crc16_bit(crc16_bit(crc16_bit(crc16_bit(x))))))))
}

/// Taking in `a` then `b` is taking in `a + b`.
proof fn lemma_crc16_register_append(crc: u16, a: Seq<u8>, b: Seq<u8>)
    ensures
        crc16_register(crc, a + b) == crc16_register(crc16_register(crc, a), b),
    decreases a.len(),
{
    if a.len() > 0 {
        assert((a + b).drop_first() =~= a.drop_first() + b);
        lemma_crc16_register_append(crc16_bits(crc ^ (a[0] as u16), 8), a.drop_first(), b);
    } else {
        assert(a + b =~= b);
    }
}

/// The receiver's check of Annex G: taking in the data and then the data
/// CRC a sender computed for it, low octet first, leaves the CRC-CCITT
/// register (started at 0xFFFF) at the residue 0xF0B8, whatever the data.
pub proof fn lemma_crc16_mstp_check(data: Seq<u8>)
    ensures
        crc16_register(
            0xFFFF,
            data + seq![(crc16_mstp_spec(data) % 256) as u8, (crc16_mstp_spec(data) / 256) as u8],
        ) == 0xF0B8,
{
    let r = crc16_register(0xFFFF, data);
    let c = crc16_mstp_spec(data);
    let lo = (c % 256) as u8;
    let hi = (c / 256) as u8;
    lemma_crc16_register_append(0xFFFF, data, seq![lo, hi]);
    let x0 = r ^ (lo as u16);
    assert(seq![lo, hi].drop_first() =~= seq![hi]);
    assert(seq![hi].drop_first() =~= Seq::<u8>::empty());
    assert(crc16_bits(x0, 8) == crc16_byte_steps(x0)) by {
        reveal_with_fuel(crc16_bits, 9);
    }
    let x1 = crc16_bits(x0, 8) ^ (hi as u16);
    assert(crc16_bits(x1, 8) == crc16_byte_steps(x1)) by {
        reveal_with_fuel(crc16_bits, 9);
    }
    assert(seq![lo, hi][0] == lo && seq![hi][0] == hi);
    assert(crc16_register(r, seq![lo, hi]) == crc16_register(crc16_bits(x0, 8), seq![hi]));
    assert(crc16_register(crc16_bits(x0, 8), seq![hi]) == crc16_register(crc16_bits(x1, 8), Seq::<u8>::empty()));
    assert(crc16_register(r, seq![lo, hi]) == crc16_bits(x1, 8));
    assert(c == !r);
    assert(lo as u16 == (!r) & 0xFF && hi as u16 == (!r) >> 8u16) by (bit_vector)
        requires
            c == !r,
            lo == (c % 256) as u8,
            hi == (c / 256) as u8,
    ;
    let y0 = r ^ ((!r) & 0xFF);
    let y1 = crc16_bit(y0);
    let y2 = crc16_bit(y1);
    let y3 = crc16_bit(y2);
    let y4 = crc16_bit(y3);
    let y5 = crc16_bit(y4);
    let y6 = crc16_bit(y5);
    let y7 = crc16_bit(y6);
    let y8 = crc16_bit(y7);
    let z0 = y8 ^ ((!r) >> 8u16);
    let z1 = crc16_bit(z0);
    let z2 = crc16_bit(z1);
    let z3 = crc16_bit(z2);
    let z4 = crc16_bit(z3);
    let z5 = crc16_bit(z4);
    let z6 = crc16_bit(z5);
    let z7 = crc16_bit(z6);
    let z8 = crc16_bit(z7);
    assert(crc16_byte_steps(y0) == y8);
    assert(crc16_byte_steps(z0) == z8);
    assert(z8 == 0xF0B8u16) by (bit_vector)
        requires
            y0 == r ^ ((!r) & 0xFF),
            y1 == crc16_bit(y0),
            y2 == crc16_bit(y1),
            y3 == crc16_bit(y2),
            y4 == crc16_bit(y3),
            y5 == crc16_bit(y4),
            y6 == crc16_bit(y5),
            y7 == crc16_bit(y6),
            y8 == crc16_bit(y7),
            z0 == y8 ^ ((!r) >> 8u16),
            z1 == crc16_bit(z0),
            z2 == crc16_bit(z1),
            z3 == crc16_bit(z2),
            z4 == crc16_bit(z3),
            z5 == crc16_bit(z4),
            z6 == crc16_bit(z5),
            z7 == crc16_bit(z6),
            z8 == crc16_bit(z7),
    ;
}

/// The MS/TP data CRC of `data`.
pub fn crc16_mstp(data: &[u8]) -> (r: u16)
    ensures
        r == crc16_mstp_spec(data@),
{
    let mut crc: u16 = 0xFFFF;
    let mut i: usize = 0;
    assert(data@.subrange(0, data@.len() as int) =~= data@);
    while i < data.len()
        invariant
            i <= data@.len(),
            crc16_register(crc, data@.subrange(i as int, data@.len() as int)) == crc16_register(0xFFFF, data@),
        decreases data@.len() - i,
    {
        let ghost rest = data@.subrange(i as int, data@.len() as int);
        let ghost start = crc ^ (data@[i as int] as u16);
        crc = crc ^ (data[i] as u16);
        let mut k: u8 = 0;
        while k < 8
            invariant
                k <= 8,
                crc16_bits(crc, (8 - k) as nat) == crc16_bits(start, 8),
            decreases 8 - k,
        {
            if crc & 1 != 0 {
                crc = (crc >> 1u16) ^ 0x8408u16;
            } else {
                crc = crc >> 1u16;
            }
            k = k + 1;
        }
        assert(rest.drop_first() =~= data@.subrange(i + 1, data@.len() as int));
        i = i + 1;
    }
    assert(data@.subrange(i as int, data@.len() as int) =~= Seq::<u8>::empty());
    !crc
}

/// Packs an object type (10 bits) and instance (22 bits) into an object
/// identifier; a larger type or instance is `ValueOutOfRange`.
pub fn encode_object_id(object_type: u16, instance: u32) -> (r: Result<u32, EncodingError>)
    ensures
        object_type <= 1023 && instance <= 0x3FFFFF ==> r == Ok::<u32, EncodingError>(
            (object_type * 4194304 + instance) as u32,
        ),
        !(object_type <= 1023 && instance <= 0x3FFFFF) ==> r matches Err(EncodingError::ValueOutOfRange),
{
    if object_type > 1023 || instance > 0x3FFFFF {
        return Err(EncodingError::ValueOutOfRange);
    }
    Ok((object_type as u32) * 4194304 + instance)
}

/// Unpacks an object identifier into its type and instance.
pub fn decode_object_id(object_id: u32) -> (r: (u16, u32))
    ensures
        r.0 == object_id / 4194304,
        r.1 == object_id % 4194304,
{
    ((object_id / 4194304) as u16, object_id % 4194304)
}

/// Unpacking a packed identifier gives its type and instance back.
pub proof fn lemma_object_id_pack_round_trip(object_type: u16, instance: u32)
    requires
        object_type <= 1023,
        instance <= 0x3FFFFF,
    ensures
        ((object_type * 4194304 + instance) as u32) / 4194304 == object_type,
        ((object_type * 4194304 + instance) as u32) % 4194304 == instance,
{
}

} // verus!
