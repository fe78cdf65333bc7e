//! Integer encoding and decoding, at every width.

use bacnet_rs::encoding::integer::{
    decode_context_signed, decode_context_unsigned, decode_signed, decode_signed64, decode_unsigned, decode_unsigned64,
    encode_context_signed, encode_context_unsigned, encode_signed, encode_signed64, encode_unsigned, encode_unsigned64,
};
use bacnet_rs::encoding::tag::Tag;


// --- Worked examples from ASHRAE 135-2024, Clause 20.2 ---

#[test]
fn spec_application_unsigned_72() {
    let mut buffer = Vec::new();
    encode_unsigned(&mut buffer, 72).unwrap();
    assert_eq!(buffer, [0x21, 0x48]);
    let (value, consumed) = decode_unsigned(&buffer).unwrap();
    assert_eq!(value, 72);
    assert_eq!(consumed, buffer.len());
}

#[test]
fn spec_application_signed_72() {
    let mut buffer = Vec::new();
    encode_signed(&mut buffer, 72).unwrap();
    assert_eq!(buffer, [0x31, 0x48]);
    let (value, consumed) = decode_signed(&buffer).unwrap();
    assert_eq!(value, 72);
    assert_eq!(consumed, buffer.len());
}

#[test]
fn spec_context_unsigned_256() {
    // [0] Unsigned, value 256 -> Encoded Tag X'0A', Data X'0100'
    let buffer = encode_context_unsigned(256, 0).unwrap();
    assert_eq!(buffer, [0x0A, 0x01, 0x00]);
    let (value, consumed) = decode_context_unsigned(&buffer, 0).unwrap();
    assert_eq!(value, 256);
    assert_eq!(consumed, buffer.len());
}

#[test]
fn spec_context_signed_minus_72() {
    // [5] Integer, value -72 -> Encoded Tag X'59', Data X'B8'
    let buffer = encode_context_signed(-72, 5).unwrap();
    assert_eq!(buffer, [0x59, 0xB8]);
    let (value, consumed) = decode_context_signed(&buffer, 5).unwrap();
    assert_eq!(value, -72);
    assert_eq!(consumed, buffer.len());
}

#[test]
fn spec_context_signed_minus_72_extended_tag_number() {
    // [33] Integer, value -72 -> Encoded Tag X'F9', Tag Number Extension
    // X'21', Data X'B8'
    let buffer = encode_context_signed(-72, 33).unwrap();
    assert_eq!(buffer, [0xF9, 0x21, 0xB8]);
    let (value, consumed) = decode_context_signed(&buffer, 33).unwrap();
    assert_eq!(value, -72);
    assert_eq!(consumed, buffer.len());
}

// --- Unsigned byte-width boundaries ---

#[test]
fn unsigned_byte_width_boundaries() {
    let cases: &[(u64, usize)] = &[
        (0, 1),
        (255, 1),
        (256, 2),
        (65535, 2),
        (65536, 3),
        (16_777_215, 3),
        (16_777_216, 4),
        (u32::MAX as u64, 4),
        (u32::MAX as u64 + 1, 5),
        (u64::MAX, 8),
    ];
    for &(value, expected_len) in cases {
        let mut buffer = Vec::new();
        encode_unsigned64(&mut buffer, value);
        let (tag, _) = Tag::decode(&buffer).unwrap();
        assert_eq!(
            tag.content_length(),
            Some(expected_len as u32),
            "value {value} expected {expected_len} content octets, got {buffer:?}"
        );
        let (decoded, consumed) = decode_unsigned64(&buffer).unwrap();
        assert_eq!(decoded, value);
        assert_eq!(consumed, buffer.len());
    }
}

// --- Signed byte-width boundaries ---

#[test]
fn signed_byte_width_boundaries() {
    let cases: &[(i64, usize)] = &[
        (0, 1),
        (127, 1),
        (-128, 1),
        (128, 2),
        (-129, 2),
        (32767, 2),
        (-32768, 2),
        (32768, 3),
        (-32769, 3),
        (8_388_607, 3),
        (-8_388_608, 3),
        (8_388_608, 4),
        (-8_388_609, 4),
        (i32::MAX as i64, 4),
        (i32::MIN as i64, 4),
        (i32::MAX as i64 + 1, 5),
        (i32::MIN as i64 - 1, 5),
        (i64::MAX, 8),
        (i64::MIN, 8),
    ];
    for &(value, expected_len) in cases {
        let mut buffer = Vec::new();
        encode_signed64(&mut buffer, value);
        let (tag, _) = Tag::decode(&buffer).unwrap();
        assert_eq!(
            tag.content_length(),
            Some(expected_len as u32),
            "value {value} expected {expected_len} content octets, got {buffer:?}"
        );
        let (decoded, consumed) = decode_signed64(&buffer).unwrap();
        assert_eq!(decoded, value);
        assert_eq!(consumed, buffer.len());
    }
}

// --- Round trips ---

#[test]
fn integer_test_encode_decode_performance() {
    let mut buffer = Vec::new();
    let iterations = 1000;

    for i in 0..iterations {
        buffer.clear();
        encode_unsigned(&mut buffer, i).unwrap();
        let (value, _) = decode_unsigned(&buffer).unwrap();
        assert_eq!(value, i);
    }
}

#[test]
fn integer_test_context_signed_round_trip() {
    for &value in &[
        0i32,
        1,
        -1,
        127,
        -128,
        128,
        -129,
        32767,
        -32768,
        32768,
        -32769,
        i32::MAX,
        i32::MIN,
    ] {
        let buffer = encode_context_signed(value, 7).unwrap();
        let (decoded, consumed) = decode_context_signed(&buffer, 7).unwrap();
        assert_eq!(decoded, value);
        assert_eq!(consumed, buffer.len());
    }
}

#[test]
fn integer_test_encode_decode_i64() {
    let mut buffer = Vec::new();
    let test_values = [
        0,
        1,
        -1,
        -330,
        i32::MAX as i64,
        i32::MIN as i64,
        i32::MAX as i64 + 10,
        i32::MIN as i64 - 10,
        i64::MAX,
        i64::MIN,
        i64::MAX as i32 as i64,
        i64::MIN as i32 as i64,
    ];

    for &test_value in &test_values {
        buffer.clear();
        encode_signed64(&mut buffer, test_value);
        let (value, _) = decode_signed64(&buffer).unwrap();
        assert_eq!(value, test_value);
    }
}

#[test]
fn integer_test_encode_decode_u64() {
    let mut buffer = Vec::new();
    let test_values = [
        0,
        1,
        255,
        330,
        u32::MAX as u64,
        u32::MIN as u64,
        u32::MAX as u64 + 10,
        u64::MAX,
        u64::MIN,
        u64::MAX as u32 as u64,
        u64::MIN as u32 as u64,
    ];

    for &test_value in &test_values {
        buffer.clear();
        encode_unsigned64(&mut buffer, test_value);
        let (value, _) = decode_unsigned64(&buffer).unwrap();
        assert_eq!(value, test_value);
    }
}

#[test]
fn context_unsigned_zero_length_decodes_as_zero() {
    // Preserves a pre-existing leniency: an absent-content context tag
    // decodes as 0 rather than erroring, unlike application-tagged
    // unsigned (which requires >=1 content octet per spec).
    let data = [0x08]; // context tag 0, length 0
    let (value, consumed) = decode_context_unsigned(&data, 0).unwrap();
    assert_eq!(value, 0);
    assert_eq!(consumed, 1);
}
