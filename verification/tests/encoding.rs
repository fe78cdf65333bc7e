//! The encoding module's values, tags, buffers and validator.

use bacnet_rs::encoding::{
    decode_boolean, decode_character_string, decode_context_signed, decode_context_tag, decode_date,
    decode_object_identifier, decode_signed, decode_signed64, decode_time, decode_unsigned, decode_unsigned64,
    encode_boolean, encode_character_string, encode_closing_tag, encode_context_signed, encode_context_tag, encode_date,
    encode_object_identifier, encode_opening_tag, encode_signed, encode_signed64, encode_time, encode_unsigned,
    encode_unsigned64,
};
use bacnet_rs::encoding::advanced::bitstring::{decode_bit_string, encode_bit_string};
use bacnet_rs::encoding::advanced::validation::DataValidator;
use bacnet_rs::encoding::advanced::BufferManager;
use bacnet_rs::encoding::advanced::perf::FastEncoder;
use bacnet_rs::encoding::{
    encode_enumerated, encode_octet_string, DecodingStream, EncodingCache, EncodingConfig, EncodingError, EncodingStream,
    ErrorEncoder, PropertyArrayEncoder, ValidationLevel,
};
use bacnet_rs::encoding::decode_fixed;
use bacnet_rs::object::{ObjectIdentifier, ObjectType};
use bacnet_rs::ApplicationTag;



#[test]
fn test_encode_decode_boolean() {
    let mut buffer = Vec::new();

    // Test true
    encode_boolean(&mut buffer, true).unwrap();
    let (value, consumed) = decode_boolean(&buffer).unwrap();
    assert!(value);
    assert_eq!(consumed, 1);

    // Test false
    buffer.clear();
    encode_boolean(&mut buffer, false).unwrap();
    let (value, consumed) = decode_boolean(&buffer).unwrap();
    assert!(!value);
    assert_eq!(consumed, 1);
}

#[test]
fn test_decode_boolean_rejects_illegal_opening_closing_lvt() {
    // Application-class Boolean tag (number 1) whose LVT nibble (6) is
    // an Opening tag marker, illegal per spec for application-class
    // tags. content_length() returns None for this, which must not be
    // silently treated as a valid zero-length (false) Boolean.
    assert!(decode_boolean(&[0x16]).is_err());
}

#[test]
fn test_encode_decode_unsigned() {
    let mut buffer = Vec::new();
    let test_values = [0, 255, 65535, 16777215, 4294967295];

    for &test_value in &test_values {
        buffer.clear();
        encode_unsigned(&mut buffer, test_value).unwrap();
        let (value, _) = decode_unsigned(&buffer).unwrap();
        assert_eq!(value, test_value);
    }
}

#[test]
fn test_encode_decode_signed() {
    let mut buffer = Vec::new();
    let test_values = [-128, -1, 0, 1, 127, -32768, 32767, -8388608, 8388607];

    for &test_value in &test_values {
        buffer.clear();
        encode_signed(&mut buffer, test_value).unwrap();
        let (value, _) = decode_signed(&buffer).unwrap();
        assert_eq!(value, test_value);
    }
}

#[test]
fn test_encode_decode_character_string() {
    let mut buffer = Vec::new();
    let test_strings = ["Hello", "BACnet", "Temperature Sensor", ""];

    for &test_string in &test_strings {
        buffer.clear();
        encode_character_string(&mut buffer, test_string).unwrap();
        let (value, _) = decode_character_string(&buffer).unwrap();
        assert_eq!(value, test_string);
    }
}

#[test]
fn mod_test_encode_decode_date() {
    let mut buffer = Vec::new();

    encode_date(&mut buffer, 2024, 3, 15, 5).unwrap(); // Friday, March 15, 2024
    let ((year, month, day, weekday), _) = decode_date(&buffer).unwrap();
    assert_eq!(year, 2024);
    assert_eq!(month, 3);
    assert_eq!(day, 15);
    assert_eq!(weekday, 5);
}

#[test]
fn mod_test_encode_decode_time() {
    let mut buffer = Vec::new();

    encode_time(&mut buffer, 14, 30, 45, 50).unwrap(); // 14:30:45.50
    let ((hour, minute, second, hundredths), _) = decode_time(&buffer).unwrap();
    assert_eq!(hour, 14);
    assert_eq!(minute, 30);
    assert_eq!(second, 45);
    assert_eq!(hundredths, 50);
}

#[test]
fn mod_test_encode_decode_object_identifier() {
    let mut buffer = Vec::new();

    let object_id = ObjectIdentifier::new(ObjectType::AnalogValue, 12345);
    encode_object_identifier(&mut buffer, object_id).unwrap(); // Analog Value 12345
    let (object_id, _) = decode_object_identifier(&buffer).unwrap();
    assert_eq!(object_id.object_type, ObjectType::AnalogValue);
    assert_eq!(object_id.instance, 12345);
}

#[test]
fn test_buffer_manager() {

    let mut manager = BufferManager::new(1024);

    // Test getting and returning buffers
    let buffer1 = manager.get_encode_buffer();
    let buffer2 = manager.get_encode_buffer();

    assert_eq!(manager.stats.total_allocations, 2);
    assert_eq!(manager.stats.buffer_reuses, 0);

    manager.return_buffer(buffer1);
    let buffer3 = manager.get_encode_buffer();

    assert_eq!(manager.stats.total_allocations, 2);
    assert_eq!(manager.stats.buffer_reuses, 1);

    manager.return_buffer(buffer2);
    manager.return_buffer(buffer3);
}

#[test]
fn test_context_specific_encoding() {
    let mut buffer = Vec::new();

    // Test context-specific tag encoding
    encode_context_tag(&mut buffer, 5, 10).unwrap();
    let (tag_number, length, consumed) = decode_context_tag(&buffer).unwrap();

    assert_eq!(tag_number, 5);
    assert_eq!(length, 10);
    assert_eq!(consumed, 2);
}

#[test]
fn test_opening_closing_tags() {
    let mut buffer = Vec::new();

    // Test opening and closing tags
    encode_opening_tag(&mut buffer, 3).unwrap();
    encode_closing_tag(&mut buffer, 3).unwrap();

    assert_eq!(buffer, vec![0x3E, 0x3F]);
}

#[test]
fn test_bit_string_encoding() {

    let mut buffer = Vec::new();
    let bits = vec![true, false, true, true, false, false, true, false, true];

    encode_bit_string(&mut buffer, &bits).unwrap();
    let (decoded_bits, _) = decode_bit_string(&buffer).unwrap();

    assert_eq!(decoded_bits, bits);
}

#[test]
fn test_data_validator() {

    let validator = DataValidator::new(10, 1000);

    // Test with valid data
    let mut buffer = Vec::new();
    encode_unsigned(&mut buffer, 42).unwrap();
    encode_character_string(&mut buffer, "Hello").unwrap();

    assert!(validator.validate(&buffer).is_ok());
}

#[test]
fn test_data_validator_accepts_context_tags() {

    let validator = DataValidator::new(10, 1000);

    // A real WritePropertyRequest APDU wraps its parameters in
    // context-class tags; the validator must not reject that as
    // malformed just because the tags aren't application-class.
    let buffer: [u8; 14] = [
        0x0C, 0x00, 0x80, 0x00, 0x01, 0x19, 0x55, 0x3E, 0x44, 0x42, 0x28, 0x00, 0x00, 0x3F,
    ];

    assert!(validator.validate(&buffer).is_ok());
}

#[test]
fn mod_test_encode_decode_performance() {
    let mut buffer = Vec::new();
    let iterations = 1000;

    // Performance test for encoding/decoding
    for i in 0..iterations {
        buffer.clear();
        encode_unsigned(&mut buffer, i).unwrap();
        let (value, _) = decode_unsigned(&buffer).unwrap();
        assert_eq!(value, i);
    }
}

#[test]
fn mod_test_context_signed_round_trip() {
    for &value in &[
        0i32,
        1,
        -1,
        127,
        -128,
        128,
        -129,
        32767,
        -32768,
        32768,
        -32769,
        i32::MAX,
        i32::MIN,
    ] {
        let buffer = encode_context_signed(value, 7).unwrap();
        let (decoded, consumed) = decode_context_signed(&buffer, 7).unwrap();
        assert_eq!(decoded, value);
        assert_eq!(consumed, buffer.len());
    }
}

#[test]
fn mod_test_encode_decode_i64() {
    let mut buffer = Vec::new();
    let test_values = [
        0,
        1,
        -1,
        -330,
        i32::MAX as i64,
        i32::MIN as i64,
        i32::MAX as i64 + 10,
        i32::MIN as i64 - 10,
        i64::MAX,
        i64::MIN,
        i64::MAX as i32 as i64,
        i64::MIN as i32 as i64,
    ];

    for &test_value in &test_values {
        buffer.clear();
        encode_signed64(&mut buffer, test_value);
        let (value, _) = decode_signed64(&buffer).unwrap();
        assert_eq!(value, test_value);
    }
}

#[test]
fn mod_test_encode_decode_u64() {
    let mut buffer = Vec::new();
    let test_values = [
        0,
        1,
        255,
        330,
        u32::MAX as u64,
        u32::MIN as u64,
        u32::MAX as u64 + 10,
        u64::MAX,
        u64::MIN,
        u64::MAX as u32 as u64,
        u64::MIN as u32 as u64,
    ];

    for &test_value in &test_values {
        buffer.clear();
        encode_unsigned64(&mut buffer, test_value);
        let (value, _) = decode_unsigned64(&buffer).unwrap();
        assert_eq!(value, test_value);
    }
}

#[test]
fn decoding_stream_reads_values_in_turn() {
    let mut buffer = Vec::new();
    encode_boolean(&mut buffer, true).unwrap();
    encode_unsigned(&mut buffer, 300).unwrap();
    encode_signed(&mut buffer, -5).unwrap();
    encode_character_string(&mut buffer, "hi").unwrap();
    encode_enumerated(&mut buffer, 7).unwrap();
    encode_date(&mut buffer, 2024, 3, 15, 5).unwrap();
    encode_time(&mut buffer, 1, 2, 3, 4).unwrap();
    encode_object_identifier(&mut buffer, ObjectIdentifier::new(ObjectType::Device, 9)).unwrap();
    encode_octet_string(&mut buffer, &[1, 2, 3]).unwrap();

    let mut stream = DecodingStream::new(&buffer);
    assert_eq!(stream.peek_tag().unwrap(), ApplicationTag::Boolean);
    assert!(stream.decode_boolean().unwrap());
    assert_eq!(stream.position(), 1);
    assert_eq!(stream.decode_unsigned().unwrap(), 300);
    assert_eq!(stream.decode_signed().unwrap(), -5);
    assert_eq!(stream.decode_character_string().unwrap(), "hi");
    assert_eq!(stream.decode_enumerated().unwrap(), 7);
    assert_eq!(stream.decode_date().unwrap(), (2024, 3, 15, 5));
    assert_eq!(stream.decode_time().unwrap(), (1, 2, 3, 4));
    let id = stream.decode_object_identifier().unwrap();
    assert_eq!((id.object_type, id.instance), (ObjectType::Device, 9));
    assert_eq!(stream.decode_octet_string().unwrap(), vec![1, 2, 3]);
    assert!(!stream.has_data());
    assert_eq!(stream.remaining(), 0);
    assert!(matches!(stream.peek_tag(), Err(EncodingError::UnexpectedEndOfData)));
}

#[test]
fn decoding_stream_errors_leave_the_position() {
    let mut buffer = Vec::new();
    encode_unsigned(&mut buffer, 5).unwrap();
    let mut stream = DecodingStream::new(&buffer);
    assert!(matches!(stream.decode_boolean(), Err(EncodingError::InvalidTag)));
    assert_eq!(stream.position(), 0);
    stream.skip_value().unwrap();
    assert_eq!(stream.position(), 2);
    assert!(matches!(stream.set_position(3), Err(EncodingError::ValueOutOfRange)));
    stream.set_position(0).unwrap();
    assert_eq!(stream.remaining(), 2);
    let context = [0x09, 0x01];
    let mut s2 = DecodingStream::new(&context);
    assert!(matches!(s2.skip_value(), Err(EncodingError::InvalidTag)));
}

#[test]
fn encoding_stream_refuses_once_full() {
    let mut stream = EncodingStream::new(3);
    stream.encode_tagged(ApplicationTag::UnsignedInt, 1000u32).unwrap();
    assert_eq!(stream.data(), &[0x22, 0x03, 0xE8]);
    assert!(matches!(stream.encode_tagged(ApplicationTag::Boolean, true), Err(EncodingError::BufferOverflow)));
    stream.clear();
    stream.encode_context(2, -1i32).unwrap();
    assert_eq!(stream.data(), &[0x29, 0xFF]);
    assert!(matches!(stream.encode_context(255, true), Err(EncodingError::ValueOutOfRange)));
    stream.encode_context(1, "A").unwrap();
    assert_eq!(stream.into_buffer(), vec![0x29, 0xFF, 0x1A, 0x00, b'A']);
}

#[test]
fn property_array_entries() {
    let mut enc = PropertyArrayEncoder::new();
    enc.add_property(85, true).unwrap();
    assert_eq!(enc.count(), 1);
    assert_eq!(enc.data(), &[0x0C, 0x00, 0x00, 0x00, 0x55, 0x1E, 0x11, 0x1F]);
    enc.clear();
    assert_eq!(enc.count(), 0);
    assert!(enc.data().is_empty());
}

#[test]
fn error_encoder_fields() {
    let mut enc = ErrorEncoder::new();
    enc.encode_error(2, 300).unwrap();
    assert_eq!(enc.data(), &[0x09, 0x91, 0x02, 0x1A, 0x92, 0x01, 0x2C]);
    enc.clear();
    assert!(enc.data().is_empty());
}

#[test]
fn data_validator_limits_strings() {
    let validator = DataValidator::new(10, 3);
    let mut long = Vec::new();
    encode_character_string(&mut long, "abcd").unwrap();
    match validator.validate(&long) {
        Err(EncodingError::InvalidFormat(msg)) => assert_eq!(msg, "String too long"),
        _ => panic!("expected InvalidFormat"),
    }
    let mut octets = Vec::new();
    encode_octet_string(&mut octets, &[0; 7]).unwrap();
    match validator.validate(&octets) {
        Err(EncodingError::InvalidFormat(msg)) => assert_eq!(msg, "Octet string too long"),
        _ => panic!("expected InvalidFormat"),
    }
    assert!(validator.validate(&[0x0D]).is_err());
    assert!(validator.validate(&[]).is_ok());
}

#[test]
fn buffer_pool_keeps_at_most_sixteen() {
    let mut manager = BufferManager::new(1 << 20);
    let buffers: Vec<Vec<u8>> = (0..20).map(|_| manager.get_encode_buffer()).collect();
    assert_eq!(manager.stats.total_allocations, 20);
    for mut b in buffers {
        b.push(1);
        manager.return_buffer(b);
    }
    assert_eq!(manager.stats.total_bytes_encoded, 20);
    for _ in 0..16 {
        assert!(manager.get_encode_buffer().is_empty());
    }
    assert_eq!(manager.stats.buffer_reuses, 16);
    let _ = manager.get_encode_buffer();
    assert_eq!(manager.stats.total_allocations, 21);
    manager.update_decode_stats(40);
    assert_eq!(manager.stats.total_bytes_decoded, 40);
}

#[test]
fn cache_hits_misses_and_eviction() {
    let mut cache = EncodingCache::new(2);
    assert_eq!(cache.get(1), None);
    cache.put(1, vec![1]);
    cache.put(2, vec![2]);
    cache.put(1, vec![9]);
    assert_eq!(cache.get(1), Some(vec![1]));
    assert_eq!(cache.get(1), Some(vec![1]));
    // Entry 2 is the least accessed and gives way.
    cache.put(3, vec![3]);
    assert_eq!(cache.get(2), None);
    assert_eq!(cache.get(3), Some(vec![3]));
    assert_eq!(cache.hits, 3);
    assert_eq!(cache.misses, 2);
    cache.clear();
    assert_eq!((cache.hits, cache.misses), (0, 0));
    assert_eq!(cache.get(1), None);
}

#[test]
fn cache_eviction_among_equals_takes_the_earliest() {
    let mut cache = EncodingCache::new(3);
    cache.put(10, vec![10]);
    cache.put(20, vec![20]);
    cache.put(30, vec![30]);
    cache.get(10);
    cache.put(40, vec![40]);
    assert_eq!(cache.get(20), None);
    assert_eq!(cache.get(10), Some(vec![10]));
    assert_eq!(cache.get(30), Some(vec![30]));
    assert_eq!(cache.get(40), Some(vec![40]));
}

#[test]
fn encoding_config_defaults() {
    let config = EncodingConfig::default();
    assert!(!config.use_compression);
    assert_eq!(config.compression_threshold, 1024);
    assert!(config.enable_caching);
    assert_eq!(config.cache_size, 1000);
    assert_eq!(config.validation_level, ValidationLevel::Basic);
    assert_eq!(config.max_string_length, 4096);
    assert_eq!(config.max_array_size, 1000);
}

#[test]
fn encoding_error_texts() {
    assert_eq!(EncodingError::BufferOverflow.to_string(), "Buffer overflow during encoding");
    assert_eq!(EncodingError::InvalidFormat("x".to_string()).to_string(), "Invalid format: x");
    assert_eq!(EncodingError::ValueOutOfRange.to_string(), "Value out of valid range");
}

#[test]
fn fast_encoder_unsigned_and_boolean() {
    let mut encoder = FastEncoder::new(16);
    encoder.encode_unsigned_fast(42).unwrap();
    encoder.encode_boolean_fast(true).unwrap();
    encoder.encode_boolean_fast(false).unwrap();
    assert_eq!(encoder.data(), &[0x21, 42, 0x11, 0x10]);
    encoder.clear();
    assert_eq!(encoder.data().len(), 0);
}

#[test]
fn error_patterns_count_kinds_and_rank_them() {
    let mut patterns = bacnet_rs::encoding::ErrorPatterns::new();
    patterns.record_error(EncodingError::InvalidTag);
    patterns.record_error(EncodingError::InvalidFormat("first".to_string()));
    patterns.record_error(EncodingError::InvalidFormat("second".to_string()));
    patterns.record_error(EncodingError::BufferUnderflow);
    patterns.record_error(EncodingError::BufferUnderflow);
    patterns.record_error(EncodingError::BufferUnderflow);

    let top = patterns.get_top_errors(10);
    assert_eq!(top.len(), 3);
    assert!(matches!(top[0], (EncodingError::BufferUnderflow, 3)));
    match &top[1] {
        (EncodingError::InvalidFormat(text), 2) => assert_eq!(text, "first"),
        other => panic!("unexpected {:?}", other),
    }
    assert!(matches!(top[2], (EncodingError::InvalidTag, 1)));

    let top_two = patterns.get_top_errors(2);
    assert_eq!(top_two.len(), 2);
    assert!(matches!(top_two[0], (EncodingError::BufferUnderflow, 3)));
    assert!(patterns.get_top_errors(0).is_empty());

    patterns.clear();
    assert!(patterns.get_top_errors(5).is_empty());
}

#[test]
fn error_patterns_keep_first_seen_order_among_equals() {
    let mut patterns = bacnet_rs::encoding::ErrorPatterns::new();
    patterns.record_error(EncodingError::ValueOutOfRange);
    patterns.record_error(EncodingError::InvalidLength);
    let top = patterns.get_top_errors(2);
    assert!(matches!(top[0], (EncodingError::ValueOutOfRange, 1)));
    assert!(matches!(top[1], (EncodingError::InvalidLength, 1)));
}

#[test]
fn decode_fixed_checks_tag_length_and_size() {
    let real = [0x44, 0x42, 0x28, 0x00, 0x00, 0x99];
    let (content, consumed) = decode_fixed(&real, 4, 4).unwrap();
    assert_eq!(content, vec![0x42, 0x28, 0x00, 0x00]);
    assert_eq!(consumed, 5);
    assert!(matches!(decode_fixed(&real, 5, 4), Err(EncodingError::InvalidTag)));
    assert!(matches!(decode_fixed(&real, 4, 8), Err(EncodingError::InvalidLength)));
    assert!(matches!(decode_fixed(&[0x44, 0x42, 0x28], 4, 4), Err(EncodingError::BufferUnderflow)));
    let double = [0x55, 0x08, 0x40, 0x09, 0x21, 0xFB, 0x54, 0x44, 0x2D, 0x18];
    let (content, consumed) = decode_fixed(&double, 5, 8).unwrap();
    assert_eq!(content.len(), 8);
    assert_eq!(consumed, 10);
}

#[test]
fn error_patterns_count_for_a_kind() {
    let mut patterns = bacnet_rs::encoding::ErrorPatterns::new();
    assert_eq!(patterns.count_for(&EncodingError::InvalidTag), 0);
    patterns.record_error(EncodingError::InvalidTag);
    patterns.record_error(EncodingError::InvalidTag);
    patterns.record_error(EncodingError::InvalidFormat("x".to_string()));
    assert_eq!(patterns.count_for(&EncodingError::InvalidTag), 2);
    assert_eq!(patterns.count_for(&EncodingError::InvalidFormat("other".to_string())), 1);
    assert_eq!(patterns.count_for(&EncodingError::BufferOverflow), 0);
}

#[test]
fn rejects_wrong_tag_class_for_real() {
    // Context tag 4, length 4: Real-shaped, but not application-tagged.
    let data = [0x4C, 0x42, 0x90, 0x00, 0x00];
    assert!(decode_fixed(&data, 4, 4).is_err());
}

#[test]
fn rejects_wrong_application_tag_number_for_real() {
    // Application tag 5 (Double), not 4 (Real).
    let data = [0x54, 0x42, 0x90, 0x00, 0x00];
    assert!(decode_fixed(&data, 4, 4).is_err());
}

#[test]
fn rejects_short_content_for_real() {
    // Application tag 4 (Real) but only 3 content octets.
    let data = [0x43, 0x42, 0x90, 0x00];
    assert!(decode_fixed(&data, 4, 4).is_err());
}

#[test]
fn rejects_wrong_content_length_for_double() {
    // Application tag 5 (Double) but only 4 content octets, not 8.
    let data = [0x54, 0x42, 0x90, 0x00, 0x00];
    assert!(decode_fixed(&data, 5, 8).is_err());
}
