//! Octet string encoding and decoding.

use bacnet_rs::encoding::octet_string::{decode_octet_string, encode_octet_string};



// --- Worked example from ASHRAE 135-2024, Clause 20.2 ---

#[test]
fn octet_string_spec_application_octet_string() {
    let mut buffer = Vec::new();
    encode_octet_string(&mut buffer, &[0x12, 0x34, 0xFF]).unwrap();
    assert_eq!(buffer, [0x63, 0x12, 0x34, 0xFF]);
    let (value, consumed) = decode_octet_string(&buffer).unwrap();
    assert_eq!(value, [0x12, 0x34, 0xFF]);
    assert_eq!(consumed, buffer.len());
}

// --- Edge cases ---

#[test]
fn empty_octet_string_round_trips() {
    let mut buffer = Vec::new();
    encode_octet_string(&mut buffer, &[]).unwrap();
    assert_eq!(buffer, [0x60]);
    let (value, consumed) = decode_octet_string(&buffer).unwrap();
    assert!(value.is_empty());
    assert_eq!(consumed, buffer.len());
}

#[test]
fn length_extension_boundaries_round_trip() {
    // 4 vs 5 octets: the point at which the length field switches from a
    // direct 0-4 value to the "5" marker plus one extra length octet.
    for len in [4usize, 5, 53, 253, 254, 65535, 65536] {
        let data = vec![0xAA; len];
        let mut buffer = Vec::new();
        encode_octet_string(&mut buffer, &data).unwrap();
        let (value, consumed) = decode_octet_string(&buffer).unwrap();
        assert_eq!(value, data, "length {len}");
        assert_eq!(consumed, buffer.len(), "length {len}");
    }
}

// --- Rejections ---

#[test]
fn octet_string_rejects_wrong_tag_class() {
    // Context tag 0, length 3 (i.e. [0] octet-string-shaped, not
    // application-tagged).
    let data = [0x03, 0x12, 0x34, 0xFF];
    assert!(decode_octet_string(&data).is_err());
}

#[test]
fn octet_string_rejects_wrong_application_tag_number() {
    // Application tag 5 (Double), not 6 (Octet String).
    let data = [0x54, 0x12, 0x34, 0xFF, 0x00];
    assert!(decode_octet_string(&data).is_err());
}

#[test]
fn octet_string_rejects_short_buffer() {
    // Tag claims 3 content octets, but only 2 are present.
    let data = [0x63, 0x12, 0x34];
    assert!(decode_octet_string(&data).is_err());
}


#[test]
fn test_encode_decode_octet_string() {
    let mut buffer = Vec::new();
    let test_data = vec![0x01, 0x02, 0x03, 0xFF, 0x00];

    encode_octet_string(&mut buffer, &test_data).unwrap();
    let (decoded, _) = decode_octet_string(&buffer).unwrap();
    assert_eq!(decoded, test_data);
}
