//! Object identifier encoding and decoding.

use bacnet_rs::encoding::object_identifier::{
    decode_context_object_id, decode_object_identifier, encode_context_object_id, encode_object_identifier,
};
use bacnet_rs::object::ObjectIdentifier;

use bacnet_rs::object::ObjectType;

// --- Worked example from ASHRAE 135-2024, Clause 20.2 ---

#[test]
fn object_identifier_spec_application_object_identifier() {
    let mut buffer = Vec::new();
    let object_id = ObjectIdentifier::new(ObjectType::BinaryInput, 15);
    encode_object_identifier(&mut buffer, object_id).unwrap();
    assert_eq!(buffer, [0xC4, 0x00, 0xC0, 0x00, 0x0F]);
    let (decoded, consumed) = decode_object_identifier(&buffer).unwrap();
    assert_eq!(decoded, object_id);
    assert_eq!(consumed, buffer.len());
}

// --- Boundary values ---

#[test]
fn instance_boundaries_round_trip() {
    for instance in [0u32, 1, 0x3FFFFE, 0x3FFFFF] {
        let mut buffer = Vec::new();
        let object_id = ObjectIdentifier::new(ObjectType::AnalogValue, instance);
        encode_object_identifier(&mut buffer, object_id).unwrap();
        let (decoded, consumed) = decode_object_identifier(&buffer).unwrap();
        assert_eq!(decoded, object_id, "instance {instance}");
        assert_eq!(consumed, buffer.len());
    }
}

#[test]
fn rejects_instance_out_of_range() {
    let object_id = ObjectIdentifier::new(ObjectType::AnalogValue, 0x400000);
    let mut buffer = Vec::new();
    assert!(encode_object_identifier(&mut buffer, object_id).is_err());
}

// --- Context-tagged round trip ---

#[test]
fn context_tagged_round_trips() {
    let object_id = ObjectIdentifier::new(ObjectType::Device, 4194302);
    let buffer = encode_context_object_id(object_id, 3).unwrap();
    let (decoded, consumed) = decode_context_object_id(&buffer, 3).unwrap();
    assert_eq!(decoded, object_id);
    assert_eq!(consumed, buffer.len());
}

// --- Rejections ---

#[test]
fn object_identifier_rejects_wrong_tag_class() {
    // Context tag 0, length 4 (i.e. [0] object-id-shaped, not
    // application-tagged).
    let data = [0x04, 0x00, 0xC0, 0x00, 0x0F];
    assert!(decode_object_identifier(&data).is_err());
}

#[test]
fn object_identifier_rejects_wrong_application_tag_number() {
    // Application tag 11 (Time), not 12 (Object Identifier).
    let data = [0xB4, 0x00, 0xC0, 0x00, 0x0F];
    assert!(decode_object_identifier(&data).is_err());
}

#[test]
fn rejects_short_content() {
    let data = [0xC3, 0x00, 0xC0, 0x00];
    assert!(decode_object_identifier(&data).is_err());
}

#[test]
fn context_decode_rejects_wrong_expected_tag() {
    let object_id = ObjectIdentifier::new(ObjectType::Device, 42);
    let buffer = encode_context_object_id(object_id, 0).unwrap();
    assert!(decode_context_object_id(&buffer, 1).is_err());
}


#[test]
fn object_identifier_test_encode_decode_object_identifier() {
    let mut buffer = Vec::new();

    let object_id = ObjectIdentifier::new(ObjectType::AnalogValue, 12345);
    encode_object_identifier(&mut buffer, object_id).unwrap(); // Analog Value 12345
    let (object_id, _) = decode_object_identifier(&buffer).unwrap();
    assert_eq!(object_id.object_type, ObjectType::AnalogValue);
    assert_eq!(object_id.instance, 12345);
}
