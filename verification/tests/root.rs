//! The crate's root items: tags, object types, errors and utilities.

use bacnet_rs::object::ObjectIdentifier;
use bacnet_rs::util::{crc16_mstp, decode_object_id, encode_object_id};
use bacnet_rs::{ApplicationTag, EncodingError, ObjectType};



#[test]
fn test_no_std_types() {
    // Test that our types work in both std and no-std environments
    let tag = ApplicationTag::Boolean;
    assert_eq!(tag as u8, 1);

    let obj_type = ObjectType::AnalogInput;
    assert_eq!(obj_type.code(), 0);

    let obj_id = ObjectIdentifier::new(ObjectType::Device, 123);
    assert_eq!(obj_id.instance, 123);
    assert!(obj_id.is_valid());
}

#[test]
fn test_encoding_error() {
    let err = EncodingError::BufferOverflow;
    // In no-std, we can still format errors
    let _ = format!("{:?}", err);
}

#[test]
fn test_util_functions() {
    // Test CRC calculation
    let data = b"test";
    let crc = crc16_mstp(data);
    assert_ne!(crc, 0);

    // Test object ID encoding/decoding
    let encoded = encode_object_id(8, 123).unwrap();
    let (obj_type, instance) = decode_object_id(encoded);
    assert_eq!(obj_type, 8);
    assert_eq!(instance, 123);
}

#[test]
fn instance_numbers_are_valid_up_to_4194302() {
    assert!(ObjectIdentifier::new(ObjectType::Device, 4194302).is_valid());
    assert!(!ObjectIdentifier::new(ObjectType::Device, 4194303).is_valid());
    assert!(ObjectIdentifier::new(ObjectType::AnalogValue, 0).is_valid());
}
