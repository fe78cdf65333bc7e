//! Bit string encoding and decoding.

use bacnet_rs::encoding::bit_string::{decode_bit_string, encode_bit_string};



// --- Worked example from ASHRAE 135-2024, Clause 20.2 ---

#[test]
fn bit_string_spec_application_bit_string() {
    let mut buffer = Vec::new();
    let bits = [true, false, true, false, true];
    encode_bit_string(&mut buffer, &bits).unwrap();
    assert_eq!(buffer, [0x82, 0x03, 0xA8]);
    let (decoded, consumed) = decode_bit_string(&buffer).unwrap();
    assert_eq!(decoded, bits);
    assert_eq!(consumed, buffer.len());
}

// --- Edge cases ---

#[test]
fn empty_bit_string_round_trips() {
    let mut buffer = Vec::new();
    encode_bit_string(&mut buffer, &[]).unwrap();
    assert_eq!(buffer, [0x81, 0x00]);
    let (decoded, consumed) = decode_bit_string(&buffer).unwrap();
    assert!(decoded.is_empty());
    assert_eq!(consumed, buffer.len());
}

#[test]
fn byte_boundary_round_trips() {
    // Exactly 8 bits: zero unused bits, exactly one subsequent octet.
    let bits = [true, false, true, true, false, false, true, false];
    let mut buffer = Vec::new();
    encode_bit_string(&mut buffer, &bits).unwrap();
    assert_eq!(buffer[1], 0); // unused bits
    let (decoded, consumed) = decode_bit_string(&buffer).unwrap();
    assert_eq!(decoded, bits);
    assert_eq!(consumed, buffer.len());
}

#[test]
fn many_bit_lengths_round_trip() {
    for len in 0..=32usize {
        let bits: Vec<bool> = (0..len).map(|i| i % 3 == 0).collect();
        let mut buffer = Vec::new();
        encode_bit_string(&mut buffer, &bits).unwrap();
        let (decoded, consumed) = decode_bit_string(&buffer).unwrap();
        assert_eq!(decoded, bits, "length {len}");
        assert_eq!(consumed, buffer.len(), "length {len}");
    }
}

// --- Rejections ---

#[test]
fn bit_string_rejects_wrong_tag_class() {
    // Context tag 0, length 2 (i.e. [0] bit-string-shaped, not
    // application-tagged).
    let data = [0x02, 0x03, 0xA8];
    assert!(decode_bit_string(&data).is_err());
}

#[test]
fn bit_string_rejects_wrong_application_tag_number() {
    // Application tag 6 (Octet String), not 8 (Bit String).
    let data = [0x62, 0x03, 0xA8];
    assert!(decode_bit_string(&data).is_err());
}

#[test]
fn rejects_zero_length_content() {
    // A bit string must have at least the initial (unused-bits) octet.
    let data = [0x80];
    assert!(decode_bit_string(&data).is_err());
}

#[test]
fn rejects_unused_bits_out_of_range() {
    // Unused bits count of 8 is invalid; must be 0-7.
    let data = [0x82, 0x08, 0xA8];
    assert!(decode_bit_string(&data).is_err());
}

#[test]
fn bit_string_rejects_short_buffer() {
    // Tag claims 2 content octets, but only 1 is present.
    let data = [0x82, 0x03];
    assert!(decode_bit_string(&data).is_err());
}


#[test]
fn test_encode_decode_bit_string() {
    let mut buffer = Vec::new();
    let bits = vec![true, false, true, true, false];

    encode_bit_string(&mut buffer, &bits).unwrap();
    let (decoded_bits, _) = decode_bit_string(&buffer).unwrap();

    assert_eq!(decoded_bits, bits);
}
