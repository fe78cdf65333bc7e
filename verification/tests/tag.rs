//! Tag encoding and decoding against the worked examples of the standard.

use bacnet_rs::encoding::tag::{ApplicationTagNumber, Tag, TagClass};
use bacnet_rs::encoding::EncodingError;


fn primitive(class: TagClass, number: u32, length: u32) -> Tag {
    Tag::primitive(class, number, length).unwrap()
}

fn assert_round_trip(tag: Tag, expected: &[u8]) {
    let mut buffer = Vec::new();
    tag.encode(&mut buffer).unwrap();
    assert_eq!(buffer, expected, "encoding mismatch for {:?}", tag);

    let (decoded, consumed) = Tag::decode(&buffer).unwrap();
    assert_eq!(consumed, buffer.len());
    assert_eq!(decoded, tag);
}

// --- Application-class tags (Clause 20.2.1.4 / 20.2.1.6 worked examples) ---

#[test]
fn spec_application_null() {
    // "Example: Application-tagged null value" -> X'00'
    assert_round_trip(primitive(TagClass::Application, 0, 0), &[0x00]);
}

#[test]
fn spec_application_boolean_false() {
    // "Example: Application-tagged Boolean value", FALSE -> X'10'
    assert_round_trip(primitive(TagClass::Application, 1, 0), &[0x10]);
}

#[test]
fn spec_application_boolean_true() {
    // Boolean TRUE per the B'001' rule in 20.2.1.3 -> X'11'
    assert_round_trip(primitive(TagClass::Application, 1, 1), &[0x11]);
}

#[test]
fn spec_application_unsigned() {
    // "Example: Application-tagged unsigned integer", value 72 (1 octet) -> X'21'
    assert_round_trip(primitive(TagClass::Application, 2, 1), &[0x21]);
}

#[test]
fn spec_application_signed() {
    // "Example: Application-tagged signed integer", value 72 (1 octet) -> X'31'
    assert_round_trip(primitive(TagClass::Application, 3, 1), &[0x31]);
}

#[test]
fn spec_application_real() {
    // "Example: Application-tagged single precision real" -> X'44'
    assert_round_trip(primitive(TagClass::Application, 4, 4), &[0x44]);
}

#[test]
fn spec_application_double() {
    // "Example: Application-tagged double precision real" -> X'55' + Extended Length X'08'
    assert_round_trip(primitive(TagClass::Application, 5, 8), &[0x55, 0x08]);
}

#[test]
fn tag_spec_application_octet_string() {
    // "Example: Application-tagged octet string", X'1234FF' (3 octets) -> X'63'
    assert_round_trip(primitive(TagClass::Application, 6, 3), &[0x63]);
}

#[test]
fn spec_application_character_string() {
    // "Example: Application-tagged character string": 1 charset octet + 24
    // character octets = 25 -> X'75' + Length Extension X'19'
    assert_round_trip(primitive(TagClass::Application, 7, 25), &[0x75, 0x19]);
}

#[test]
fn tag_spec_application_bit_string() {
    // "Example: Application-tagged bit string", B'10101' -> X'82' (2 content octets)
    assert_round_trip(primitive(TagClass::Application, 8, 2), &[0x82]);
}

#[test]
fn spec_application_enumerated() {
    // "Example: Application-tagged enumeration" -> X'91'
    assert_round_trip(primitive(TagClass::Application, 9, 1), &[0x91]);
}

#[test]
fn spec_application_date() {
    // "Example: Application-tagged specific date value" -> X'A4'
    assert_round_trip(primitive(TagClass::Application, 10, 4), &[0xA4]);
}

#[test]
fn tag_spec_application_time() {
    // "Example: Application-tagged specific time value" -> X'B4'
    assert_round_trip(primitive(TagClass::Application, 11, 4), &[0xB4]);
}

#[test]
fn tag_spec_application_object_identifier() {
    // "Example: Application-tagged object identifier value" -> X'C4'
    assert_round_trip(primitive(TagClass::Application, 12, 4), &[0xC4]);
}

// --- Context-specific tags (Clause 20.2.1.6 worked examples) ---

#[test]
fn spec_context_null() {
    // "Example: Context-tagged null value", [3] Null -> X'38'
    assert_round_trip(primitive(TagClass::Context, 3, 0), &[0x38]);
}

#[test]
fn spec_context_boolean() {
    // "Example: Context-tagged Boolean value", [6] Boolean FALSE -> X'69' (+ data X'00', not this module's concern)
    assert_round_trip(primitive(TagClass::Context, 6, 1), &[0x69]);
}

#[test]
fn spec_context_boolean_extended_tag_number() {
    // "Example: ... Boolean value with context tag number greater than 14",
    // [27] Boolean FALSE -> X'F9' X'1B'
    assert_round_trip(primitive(TagClass::Context, 27, 1), &[0xF9, 0x1B]);
}

#[test]
fn spec_context_unsigned() {
    // "Example: Context-tagged unsigned integer", [0] value 256 (2 octets) -> X'0A'
    assert_round_trip(primitive(TagClass::Context, 0, 2), &[0x0A]);
}

#[test]
fn spec_context_signed() {
    // "Example: Context-tagged signed integer", [5] value -72 (1 octet) -> X'59'
    assert_round_trip(primitive(TagClass::Context, 5, 1), &[0x59]);
}

#[test]
fn spec_context_signed_extended_tag_number() {
    // "Example: ... signed integer with context tag number greater than 14",
    // [33] value -72 -> X'F9' X'21'
    assert_round_trip(primitive(TagClass::Context, 33, 1), &[0xF9, 0x21]);
}

#[test]
fn spec_context_real() {
    // "Example: Context-tagged single precision real", [0] -> X'0C'
    assert_round_trip(primitive(TagClass::Context, 0, 4), &[0x0C]);
}

#[test]
fn spec_context_double() {
    // "Example: Context-tagged double precision real", [1] -> X'1D' + Length Extension X'08'
    assert_round_trip(primitive(TagClass::Context, 1, 8), &[0x1D, 0x08]);
}

#[test]
fn spec_context_double_extended_tag_number() {
    // "Example: ... double precision real with context tag number greater than 14",
    // [85] -> X'FD' X'55' + Length Extension X'08'
    assert_round_trip(primitive(TagClass::Context, 85, 8), &[0xFD, 0x55, 0x08]);
}

#[test]
fn spec_context_octet_string() {
    // "Example: Context-tagged octet string", [1] X'4321' (2 octets) -> X'1A'
    assert_round_trip(primitive(TagClass::Context, 1, 2), &[0x1A]);
}

#[test]
fn spec_context_character_string() {
    // "Example: Context-tagged character string", [5]: 1 charset octet + 24
    // character octets = 25 -> X'5D' + Length Extension X'19'
    assert_round_trip(primitive(TagClass::Context, 5, 25), &[0x5D, 0x19]);
}

#[test]
fn spec_context_character_string_extended_tag_number() {
    // "Example: ... character string with context tag number greater than 14",
    // [127] -> X'FD' X'7F' + Length Extension X'19'
    assert_round_trip(primitive(TagClass::Context, 127, 25), &[0xFD, 0x7F, 0x19]);
}

#[test]
fn spec_context_bit_string() {
    // "Example: Context-tagged bit string", [0]: 1 unused-bits octet + 1 data
    // octet = 2 -> X'0A'
    assert_round_trip(primitive(TagClass::Context, 0, 2), &[0x0A]);
}

// --- Opening / closing tags (Clause 20.2.1.3, constructed data) ---
//
// Byte values cross-checked against opening/closing tag pairs used
// throughout Clause 21/Annex service examples (e.g. "PD Opening/Closing
// Tag N").

#[test]
fn spec_opening_closing_low_numbers() {
    for n in 0..=5u32 {
        let opening = Tag::opening(n).unwrap();
        let closing = Tag::closing(n).unwrap();
        let expected_open = (n as u8) << 4 | 0x0E;
        let expected_close = (n as u8) << 4 | 0x0F;
        assert_round_trip(opening, &[expected_open]);
        assert_round_trip(closing, &[expected_close]);
    }
}

#[test]
fn spec_opening_closing_tag_12() {
    // "PD Opening Tag 12" / "PD Closing Tag 12" -> X'CE' / X'CF'
    assert_round_trip(Tag::opening(12).unwrap(), &[0xCE]);
    assert_round_trip(Tag::closing(12).unwrap(), &[0xCF]);
}

#[test]
fn opening_closing_extended_tag_number() {
    // Not a literal spec example; derived from the general rule (Clause
    // 20.2.1.2's tag-number extension applies uniformly to all tags,
    // including opening/closing per 20.2.1.3(a)/(c)).
    assert_round_trip(Tag::opening(200).unwrap(), &[0xFE, 0xC8]);
    assert_round_trip(Tag::closing(200).unwrap(), &[0xFF, 0xC8]);
}

// --- Boundary conditions ---

#[test]
fn length_boundary_four_vs_five() {
    assert_round_trip(primitive(TagClass::Context, 0, 4), &[0x0C]);
    assert_round_trip(primitive(TagClass::Context, 0, 5), &[0x0D, 0x05]);
}

#[test]
fn length_boundary_253_vs_254() {
    assert_round_trip(primitive(TagClass::Context, 0, 253), &[0x0D, 253]);
    assert_round_trip(primitive(TagClass::Context, 0, 254), &[0x0D, 254, 0x00, 0xFE]);
}

#[test]
fn length_boundary_65535_vs_65536() {
    assert_round_trip(
        primitive(TagClass::Context, 0, 65535),
        &[0x0D, 254, 0xFF, 0xFF],
    );
    assert_round_trip(
        primitive(TagClass::Context, 0, 65536),
        &[0x0D, 255, 0x00, 0x01, 0x00, 0x00],
    );
}

#[test]
fn tag_number_boundary_14_vs_15() {
    assert_round_trip(primitive(TagClass::Context, 14, 0), &[0xE8]);
    assert_round_trip(primitive(TagClass::Context, 15, 0), &[0xF8, 0x0F]);
}

#[test]
fn tag_number_max_254() {
    assert_round_trip(primitive(TagClass::Context, 254, 0), &[0xF8, 254]);
}

#[test]
fn encode_rejects_tag_number_above_254() {
    assert!(matches!(
        Tag::primitive(TagClass::Context, 255, 0),
        Err(EncodingError::ValueOutOfRange)
    ));
}

#[test]
fn decode_rejects_reserved_extension_octet() {
    // Clause 20.2.1.2: "The value B'11111111' of the subsequent octet is
    // reserved by ASHRAE."
    let data = [0xF8, 0xFF];
    assert!(matches!(Tag::decode(&data), Err(EncodingError::InvalidTag)));
}

#[test]
fn decode_reports_buffer_underflow() {
    assert!(matches!(
        Tag::decode(&[]),
        Err(EncodingError::InvalidTag)
    ));
    // Extended tag number with no extension octet.
    assert!(matches!(
        Tag::decode(&[0xF8]),
        Err(EncodingError::BufferUnderflow)
    ));
    // Extended length (5) with no length octet.
    assert!(matches!(
        Tag::decode(&[0x0D]),
        Err(EncodingError::BufferUnderflow)
    ));
    // 16-bit length extension truncated.
    assert!(matches!(
        Tag::decode(&[0x0D, 254, 0x00]),
        Err(EncodingError::BufferUnderflow)
    ));
    // 32-bit length extension truncated.
    assert!(matches!(
        Tag::decode(&[0x0D, 255, 0x00, 0x00, 0x00]),
        Err(EncodingError::BufferUnderflow)
    ));
}

#[test]
fn opening_and_closing_are_distinguished_from_primitive() {
    let opening = Tag::opening(3).unwrap();
    let closing = Tag::closing(3).unwrap();
    assert!(opening.is_opening());
    assert!(!opening.is_closing());
    assert!(!opening.is_primitive());
    assert_eq!(opening.content_length(), None);

    assert!(closing.is_closing());
    assert!(!closing.is_opening());
    assert_eq!(closing.content_length(), None);
}

// --- General round-trip coverage across all tiers ---

#[test]
fn round_trip_property_all_tiers() {
    let numbers = [0u32, 1, 14, 15, 100, 254];
    let lengths = [0u32, 1, 4, 5, 100, 253, 254, 1000, 65535, 65536, 70_000];
    for &class in &[TagClass::Application, TagClass::Context] {
        for &number in &numbers {
            for &length in &lengths {
                let tag = Tag::primitive(class, number, length).unwrap();
                let mut buffer = Vec::new();
                tag.encode(&mut buffer).unwrap();
                let (decoded, consumed) = Tag::decode(&buffer).unwrap();
                assert_eq!(consumed, buffer.len());
                assert_eq!(decoded, tag);
            }
        }
    }
}

#[test]
fn application_tag_numbers_convert_both_ways() {
    assert_eq!(ApplicationTagNumber::try_from(4u32).unwrap(), ApplicationTagNumber::Real);
    assert_eq!(ApplicationTagNumber::try_from(15u32).unwrap(), ApplicationTagNumber::Reserved15);
    assert!(matches!(ApplicationTagNumber::try_from(16u32), Err(EncodingError::InvalidTag)));
    assert_eq!(u32::from(ApplicationTagNumber::ObjectIdentifier), 12);
    for n in 0u32..16 {
        assert_eq!(u32::from(ApplicationTagNumber::try_from(n).unwrap()), n);
    }
}
