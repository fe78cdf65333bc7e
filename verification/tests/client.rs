//! Client helpers: object identifier packing, type names, configuration
//! and invoke IDs.

use bacnet_rs::client::transaction::InvokeIdAllocator;
use bacnet_rs::client::{
    confirmed_request_frame, create_unconfirmed_bvlc, create_unconfirmed_message, decode_object_id, encode_object_id, get_object_type_name,
    interpret_confirmed_response, scan_object_identifiers, ClientBuilder, ClientConfig, ClientError, DEFAULT_HOST,
    DEFAULT_TIMEOUT_SECS,
};
use bacnet_rs::client::{rpm_batches, rpm_properties, PropertyIdentifier};
use bacnet_rs::encoding::EncodingError;
use bacnet_rs::object::{ObjectIdentifier, ObjectType};
use std::time::Duration;


#[test]
fn test_object_type_names() {
    assert_eq!(
        get_object_type_name(ObjectType::AnalogInput),
        "Analog Input"
    );
    assert_eq!(get_object_type_name(ObjectType::Device), "Device");
    assert_eq!(
        get_object_type_name(ObjectType::BinaryOutput),
        "Binary Output"
    );
}

#[test]
fn client_test_object_id_encoding() {
    let encoded = encode_object_id(0, 123);
    let (obj_type, instance) = decode_object_id(encoded);
    assert_eq!(obj_type, 0);
    assert_eq!(instance, 123);

    let encoded = encode_object_id(8, 5047);
    let (obj_type, instance) = decode_object_id(encoded);
    assert_eq!(obj_type, 8);
    assert_eq!(instance, 5047);
}


#[test]
fn mod_test_object_id_encoding() {
    let object_id = ObjectIdentifier::new(ObjectType::AnalogInput, 123);
    let encoded: u32 = match object_id.try_into() {
        Ok(value) => value,
        Err(_) => panic!("Object identifier encoding failed"),
    };
    let decoded = ObjectIdentifier::from(encoded);
    assert_eq!(decoded.object_type, ObjectType::AnalogInput);
    assert_eq!(decoded.instance, 123);

    let object_id = ObjectIdentifier::new(ObjectType::Device, 5047);
    let encoded: u32 = match object_id.try_into() {
        Ok(value) => value,
        Err(_) => panic!("Object identifier encoding failed"),
    };
    let decoded = ObjectIdentifier::from(encoded);
    assert_eq!(decoded.object_type, ObjectType::Device);
    assert_eq!(decoded.instance, 5047);
}

#[test]
fn test_config_defaults() {
    let config = ClientConfig::default();
    assert_eq!(config.host, DEFAULT_HOST);
    assert_eq!(config.port, 0);
    assert_eq!(config.timeout, Duration::from_secs(DEFAULT_TIMEOUT_SECS));
    assert_eq!(config.retries, 0);
    assert_eq!(config.bind_addr(), "0.0.0.0:0");
}



#[test]
fn allocates_sequentially() {
    let mut alloc = InvokeIdAllocator::new();
    assert_eq!(alloc.next_id(), 0);
    assert_eq!(alloc.next_id(), 1);
    assert_eq!(alloc.next_id(), 2);
}

#[test]
fn wraps_at_byte_boundary() {
    let mut alloc = InvokeIdAllocator::new();
    // Advance to 255.
    for _ in 0..255 {
        alloc.next_id();
    }
    assert_eq!(alloc.next_id(), 255);
    // The next allocation must wrap back to 0 rather than overflow-panic.
    assert_eq!(alloc.next_id(), 0);
}

#[test]
fn test_error_display() {
    assert_eq!(ClientError::Timeout.to_string(), "request timed out");

    // Known class + code are named, with the raw numbers retained.
    let known = ClientError::PropertyError { class: 1, code: 31 };
    assert_eq!(
        known.to_string(),
        "unknown-object (class object[1], code 31)"
    );

    // Property/write-access-denied.
    let denied = ClientError::PropertyError { class: 2, code: 40 };
    assert_eq!(
        denied.to_string(),
        "write-access-denied (class property[2], code 40)"
    );

    // Unknown code falls back to the numeric form.
    let unknown = ClientError::PropertyError {
        class: 2,
        code: 222,
    };
    assert_eq!(
        unknown.to_string(),
        "BACnet error (class property[2], code 222)"
    );
}

#[test]
fn unknown_class_is_shown_as_its_number() {
    assert_eq!(
        ClientError::PropertyError { class: 9, code: 40 }.to_string(),
        "write-access-denied (class 9, code 40)"
    );
    assert_eq!(
        ClientError::PropertyError { class: 300, code: 7 }.to_string(),
        "BACnet error (class 300, code 7)"
    );
}

#[test]
fn client_error_texts() {
    assert_eq!(ClientError::NoResponse.to_string(), "no response from device");
    assert_eq!(ClientError::Decode("bad".to_string()).to_string(), "failed to decode response: bad");
    assert_eq!(ClientError::AddressParse("x:y".to_string()).to_string(), "invalid address: x:y");
    assert_eq!(ClientError::Rejected(4).to_string(), "request rejected: 4");
    assert_eq!(ClientError::Abort(2).to_string(), "transaction aborted: 2");
    assert_eq!(
        ClientError::from(EncodingError::InvalidTag).to_string(),
        "encoding error: Invalid tag number encountered"
    );
    let io = std::io::Error::new(std::io::ErrorKind::Other, "boom");
    assert!(ClientError::Io(io).to_string().starts_with("I/O error: "));
}

#[test]
fn object_id_packing_masks_fields() {
    // The type is cut to ten bits and the instance to 22.
    assert_eq!(encode_object_id(1024 + 8, 5), (8u32 << 22) | 5);
    assert_eq!(encode_object_id(8, 0x400001), (8u32 << 22) | 1);
    assert_eq!(decode_object_id(0xFFFF_FFFF), (1023, 0x3FFFFF));
}

#[test]
fn builder_sets_each_field() {
    let config = ClientBuilder::new()
        .local_addr("127.0.0.1")
        .port(47808)
        .timeout(Duration::from_millis(250))
        .retries(3)
        .into_config();
    assert_eq!(config.host, "127.0.0.1");
    assert_eq!(config.port, 47808);
    assert_eq!(config.timeout, Duration::from_millis(250));
    assert_eq!(config.retries, 3);
    assert_eq!(config.bind_addr(), "127.0.0.1:47808");
}

#[test]
fn type_names_cover_proprietary() {
    assert_eq!(get_object_type_name(ObjectType::MultiStateValue), "Multi-State Value");
    assert_eq!(get_object_type_name(ObjectType::AccessDoor), "Access Door");
    assert_eq!(get_object_type_name(ObjectType::Proprietary(200)), "Proprietary");
}

#[test]
fn invoke_ids_run_round_the_byte() {
    let mut alloc = InvokeIdAllocator::new();
    for expected in 0..=600u32 {
        assert_eq!(alloc.next_id() as u32, expected % 256);
    }
}

fn framed(apdu: &[u8]) -> Vec<u8> {
    let total = (4 + 2 + apdu.len()) as u16;
    let mut v = vec![0x81, 0x0A, (total >> 8) as u8, (total & 0xFF) as u8, 0x01, 0x00];
    v.extend_from_slice(apdu);
    v
}

#[test]
fn confirmed_response_matching_acks() {
    let complex = framed(&[0x30, 7, 0x0C, 0xAA, 0xBB]);
    assert_eq!(interpret_confirmed_response(&complex, 7).unwrap(), Some(vec![0xAA, 0xBB]));
    assert_eq!(interpret_confirmed_response(&complex, 8).unwrap(), None);
    let simple = framed(&[0x20, 7, 0x0F]);
    assert_eq!(interpret_confirmed_response(&simple, 7).unwrap(), Some(vec![]));
}

#[test]
fn confirmed_response_errors() {
    match interpret_confirmed_response(&framed(&[0x50, 3, 0x0C, 2, 31]), 3) {
        Err(ClientError::PropertyError { class, code }) => {
            assert_eq!(class, 2);
            assert_eq!(code, 31);
        }
        other => panic!("unexpected {:?}", other),
    }
    assert!(matches!(interpret_confirmed_response(&framed(&[0x60, 3, 9]), 3), Err(ClientError::Rejected(9))));
    assert!(matches!(interpret_confirmed_response(&framed(&[0x70, 3, 4]), 3), Err(ClientError::Abort(4))));
    assert_eq!(interpret_confirmed_response(&framed(&[0x70, 2, 4]), 3).unwrap(), None);
}

#[test]
fn confirmed_response_ignores_other_traffic() {
    assert_eq!(interpret_confirmed_response(&[0x81, 0x0A, 0x00], 1).unwrap(), None);
    let mut wrong_length = framed(&[0x30, 1, 0x0C]);
    wrong_length[3] += 1;
    assert_eq!(interpret_confirmed_response(&wrong_length, 1).unwrap(), None);
    let bad_npdu = vec![0x81, 0x0A, 0x00, 0x07, 0x02, 0x00, 0x30];
    assert_eq!(interpret_confirmed_response(&bad_npdu, 1).unwrap(), None);
    let unconfirmed = framed(&[0x10, 0x08]);
    assert_eq!(interpret_confirmed_response(&unconfirmed, 1).unwrap(), None);
}

#[test]
fn unconfirmed_frames() {
    let who_is = create_unconfirmed_bvlc(0x08, &[], 0x0B);
    assert_eq!(who_is, vec![0x81, 0x0B, 0x00, 0x08, 0x01, 0x00, 0x10, 0x08]);
    let msg = create_unconfirmed_message(0x08, &[0x09, 0x01]);
    assert_eq!(msg, vec![0x81, 0x0A, 0x00, 0x0A, 0x01, 0x00, 0x10, 0x08, 0x09, 0x01]);
}

#[test]
fn scan_finds_identifiers_but_not_devices() {
    let data = vec![
        0x00, 0xC4, 0x00, 0x00, 0x00, 0x01, // analog input 1
        0xC4, 0x02, 0x00, 0x00, 0x05, // device 5
        0x42, // not a tag of interest
        0xC4, 0x00, 0xC0, 0x00, 0x02, // binary input 2
        0xC4, 0x00, // truncated
    ];
    let found = scan_object_identifiers(&data);
    assert_eq!(
        found,
        vec![
            ObjectIdentifier::new(ObjectType::AnalogInput, 1),
            ObjectIdentifier::new(ObjectType::BinaryInput, 2),
        ]
    );
    assert!(scan_object_identifiers(&[]).is_empty());
}

#[test]
fn confirmed_request_frames() {
    let data = [0x0C, 0x02, 0x00, 0x00, 0x08, 0x19, 0x55];
    let frame = confirmed_request_frame(5, 12, &data);
    assert_eq!(
        frame,
        vec![0x81, 0x0A, 0x00, 0x11, 0x01, 0x04, 0x02, 0x05, 5, 12, 0x0C, 0x02, 0x00, 0x00, 0x08, 0x19, 0x55]
    );
}

#[test]
fn batch_reads_ask_by_object_type() {
    assert_eq!(
        rpm_properties(ObjectType::AnalogInput),
        vec![PropertyIdentifier::ObjectName, PropertyIdentifier::Description, PropertyIdentifier::PresentValue, PropertyIdentifier::StatusFlags, PropertyIdentifier::Units]
    );
    assert_eq!(
        rpm_properties(ObjectType::BinaryValue),
        vec![PropertyIdentifier::ObjectName, PropertyIdentifier::Description, PropertyIdentifier::PresentValue, PropertyIdentifier::StatusFlags]
    );
    assert_eq!(
        rpm_properties(ObjectType::MultiStateOutput),
        vec![PropertyIdentifier::ObjectName, PropertyIdentifier::Description, PropertyIdentifier::PresentValue, PropertyIdentifier::StatusFlags]
    );
    assert_eq!(rpm_properties(ObjectType::Schedule), vec![PropertyIdentifier::ObjectName, PropertyIdentifier::Description]);
    assert_eq!(rpm_properties(ObjectType::Proprietary(200)), vec![PropertyIdentifier::ObjectName, PropertyIdentifier::Description]);
    assert_eq!(PropertyIdentifier::ObjectName.code(), 77);
    assert_eq!(PropertyIdentifier::Description.code(), 28);
    assert_eq!(PropertyIdentifier::PresentValue.code(), 85);
    assert_eq!(PropertyIdentifier::StatusFlags.code(), 111);
    assert_eq!(PropertyIdentifier::Units.code(), 117);
}

#[test]
fn batch_reads_go_five_objects_at_a_time() {
    let objs: Vec<ObjectIdentifier> = (0..12).map(|i| ObjectIdentifier::new(ObjectType::AnalogValue, i)).collect();
    let batches = rpm_batches(&objs);
    assert_eq!(batches.len(), 3);
    assert_eq!(batches[0], objs[0..5].to_vec());
    assert_eq!(batches[1], objs[5..10].to_vec());
    assert_eq!(batches[2], objs[10..12].to_vec());
    assert_eq!(rpm_batches(&objs[..5]).len(), 1);
    assert!(rpm_batches(&[]).is_empty());
}
