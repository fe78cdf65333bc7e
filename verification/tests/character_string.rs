//! CharacterString decoding in every character set, and encoding.

use bacnet_rs::encoding::character_string::{
    decode_character_string, decode_character_string_full, encode_character_string, CharacterSet, CHARSET_DBCS,
    CHARSET_ISO_8859_1, CHARSET_UCS2, CHARSET_UCS4, CHARSET_UTF8,
};
use bacnet_rs::character_string::{CharacterString, Error as CsError, StringEncoding};
use bacnet_rs::encoding::tag::{ApplicationTagNumber, Tag, TagClass};
use bacnet_rs::encoding::EncodingError;


fn assert_decodes_to(data: &[u8], expected_text: &str, expected_charset: CharacterSet) {
    let (text, charset, consumed) = decode_character_string_full(data).unwrap();
    assert_eq!(text, expected_text);
    assert_eq!(charset, expected_charset);
    assert_eq!(consumed, data.len());
}

// --- Worked examples from ASHRAE 135-2024, Clause 20.2.9 ---

#[test]
fn spec_utf8_ascii() {
    // "Application-tagged character string": "This is a BACnet string!"
    // Encoded Tag = X'75', Length Extension = X'19', Character Set = X'00'
    let mut data = vec![0x75, 0x19, 0x00];
    data.extend_from_slice(b"This is a BACnet string!");
    assert_decodes_to(&data, "This is a BACnet string!", CharacterSet::Utf8);
}

#[test]
fn spec_utf8_non_ascii() {
    // "Application-tagged character string with non-ANSI character": "Français"
    // Encoded Tag = X'75', Length Extension = X'0A', Character Set = X'00'
    // Encoded Data = X'4672616EC3A7616973'
    let mut data = vec![0x75, 0x0A, 0x00];
    data.extend_from_slice(&[0x46, 0x72, 0x61, 0x6E, 0xC3, 0xA7, 0x61, 0x69, 0x73]);
    assert_decodes_to(&data, "Français", CharacterSet::Utf8);
}

#[test]
fn spec_dbcs_code_page_850() {
    // "Application-tagged character string (DBCS)": "This is a BACnet String!"
    // (code page 850), Encoded Tag = X'75', Length Extension = X'1B'
    // Encoded Data = X'010352546869732069732061204241436E657420737472696E6721'
    let mut data = vec![0x75, 0x1B, 0x01, 0x03, 0x52];
    data.extend_from_slice(b"This is a BACnet string!");
    assert_decodes_to(&data, "This is a BACnet string!", CharacterSet::Dbcs(850));
}

#[test]
fn dbcs_code_page_850_non_ascii_byte() {
    // 0x80 in CP850 is 'Ç' (U+00C7) — distinct from ASCII, so this only
    // passes if the real CP850 table is actually consulted rather than
    // the ASCII-safe fallback.
    let content = [CHARSET_DBCS, 0x03, 0x52, 0x80];
    assert_decodes_to(&wrap_content(&content), "Ç", CharacterSet::Dbcs(850));
}

#[test]
fn spec_ucs2() {
    // "Application-tagged character string (UCS-2)": "This is a BACnet String!"
    // Encoded Tag = X'75', Length Extension = X'31'
    // Encoded Data = X'0400540068...0067 0021'
    let text = "This is a BACnet string!";
    let mut data = vec![0x75, 0x31, 0x04];
    for unit in text.encode_utf16() {
        data.extend_from_slice(&unit.to_be_bytes());
    }
    assert_decodes_to(&data, text, CharacterSet::Ucs2);
}

/// Wraps raw CharacterString content (charset octet + data) in a
/// correctly-encoded application tag, so tests don't hand-compute tag
/// bytes for anything other than the literal spec examples.
fn wrap_content(content: &[u8]) -> Vec<u8> {
    let mut data = Vec::new();
    Tag::primitive(
        TagClass::Application,
        ApplicationTagNumber::CharacterString as u32,
        content.len() as u32,
    )
    .unwrap()
    .encode(&mut data)
    .unwrap();
    data.extend_from_slice(content);
    data
}

// --- Round trips for charsets without a literal spec byte example ---

#[test]
fn ucs4_round_trip_non_bmp_character() {
    // U+1F600 (an emoji) requires UCS-4; if this were accidentally
    // truncated to 16 bits, this test would fail.
    let text = "hi \u{1F600} bye";
    let mut content = vec![CHARSET_UCS4];
    for c in text.chars() {
        content.extend_from_slice(&(c as u32).to_be_bytes());
    }

    assert_decodes_to(&wrap_content(&content), text, CharacterSet::Ucs4);
}

#[test]
fn iso_8859_1_round_trip_high_byte() {
    // 0xE9 in ISO 8859-1 is 'é' (U+00E9), identical scalar value.
    let content = [CHARSET_ISO_8859_1, b'e', 0xE9];
    assert_decodes_to(&wrap_content(&content), "eé", CharacterSet::Iso8859_1);
}

#[test]
fn empty_string() {
    // Charset octet present, zero data octets following.
    let content = [CHARSET_UTF8];
    assert_decodes_to(&wrap_content(&content), "", CharacterSet::Utf8);
}

// --- Rejections ---

#[test]
fn rejects_invalid_utf8() {
    let content = [CHARSET_UTF8, 0xFF, 0xFE];
    assert!(decode_character_string_full(&wrap_content(&content)).is_err());
}

#[test]
fn rejects_lone_surrogate_in_ucs2() {
    // 0xD800 is a lone high surrogate with no following low surrogate.
    let content = [CHARSET_UCS2, 0xD8, 0x00];
    assert!(decode_character_string_full(&wrap_content(&content)).is_err());
}

#[test]
fn rejects_surrogate_scalar_in_ucs4() {
    // 0x0000D800 is in the surrogate range, not a valid scalar value.
    let content = [CHARSET_UCS4, 0x00, 0x00, 0xD8, 0x00];
    assert!(decode_character_string_full(&wrap_content(&content)).is_err());
}

#[test]
fn rejects_reserved_charset() {
    let content = [0x06, b'h', b'i'];
    assert!(decode_character_string_full(&wrap_content(&content)).is_err());
}

#[test]
fn rejects_non_ascii_dbcs_with_unrecognized_code_page() {
    // Code page 0xFFFF is not a recognized code page under any backend.
    let content = [CHARSET_DBCS, 0xFF, 0xFF, 0x80];
    assert!(decode_character_string_full(&wrap_content(&content)).is_err());
}

#[test]
fn decodes_ascii_dbcs_with_unrecognized_code_page() {
    // Plain ASCII content is decodable even under an unrecognized code page.
    let content = [CHARSET_DBCS, 0xFF, 0xFF, b'h', b'i'];
    assert_decodes_to(&wrap_content(&content), "hi", CharacterSet::Dbcs(0xFFFF));
}

// --- encode always uses UTF-8 ---

#[test]
fn encode_decode_round_trip() {
    let mut buffer = Vec::new();
    encode_character_string(&mut buffer, "round trip: café 🎉").unwrap();
    let (text, charset, consumed) = decode_character_string_full(&buffer).unwrap();
    assert_eq!(text, "round trip: café 🎉");
    assert_eq!(charset, CharacterSet::Utf8);
    assert_eq!(consumed, buffer.len());
}

#[test]
fn decode_character_string_discards_charset() {
    let mut data = vec![0x75, 0x1B, 0x01, 0x03, 0x52];
    data.extend_from_slice(b"This is a BACnet string!");
    let (text, consumed) = decode_character_string(&data).unwrap();
    assert_eq!(text, "This is a BACnet string!");
    assert_eq!(consumed, data.len());
}

#[test]
fn character_string_text_by_encoding() {
    let s = CharacterString::new(StringEncoding::UTF8, vec![b'o', b'k', 0xFF]);
    assert_eq!(s.to_string().unwrap(), "ok\u{FFFD}");
    let s = CharacterString::new(StringEncoding::UCS2, vec![0x00, b'h', 0x00, b'i', 0x00]);
    assert_eq!(s.to_string().unwrap(), "hi");
    let s = CharacterString::new(StringEncoding::UCS2, vec![0xD8, 0x00, 0x00, b'x']);
    assert_eq!(s.to_string().unwrap(), "\u{FFFD}x");
    let s = CharacterString::new(StringEncoding::ISO88591, vec![]);
    assert_eq!(s.to_string().unwrap(), "");
    let s = CharacterString::new(StringEncoding::DBCS(850), vec![b'a']);
    assert_eq!(s.to_string(), Err(CsError::UnsupportedEncoding(StringEncoding::DBCS(850))));
    assert!(CharacterString::new(StringEncoding::JIS, vec![]).to_string().is_err());
    assert!(CharacterString::new(StringEncoding::UCS4, vec![]).to_string().is_err());
}

#[test]
fn character_string_from_str_and_back() {
    let s: CharacterString = "café".parse().unwrap();
    assert_eq!(s.encoding, StringEncoding::UTF8);
    assert_eq!(s.data, "café".as_bytes().to_vec());
    assert_eq!(s.encode(), [vec![0x00], "café".as_bytes().to_vec()].concat());
    let back = CharacterString::decode(&s.encode()).unwrap();
    assert_eq!(back, s);
    assert_eq!(back.to_string().unwrap(), "café");
}

#[test]
fn string_encoding_headers() {
    assert_eq!(StringEncoding::DBCS(0x0352).encode(), vec![0x01, 0x03, 0x52]);
    assert_eq!(StringEncoding::decode(&[0x01, 0x03, 0x52]).unwrap(), (StringEncoding::DBCS(850), 3));
    assert_eq!(StringEncoding::decode(&[0x05]).unwrap(), (StringEncoding::ISO88591, 1));
    assert!(matches!(StringEncoding::decode(&[0x01, 0x03]), Err(EncodingError::ValueOutOfRange)));
    assert!(matches!(StringEncoding::decode(&[0x09]), Err(EncodingError::ValueOutOfRange)));
    assert_eq!(CharacterString::default().encode(), vec![0x00]);
}

#[test]
fn jis_and_code_page_character_sets() {
    let content = [CHARSET_ISO_8859_1, 0xC7, b'a'];
    assert_decodes_to(&wrap_content(&content), "\u{C7}a", CharacterSet::Iso8859_1);
    let jis = [0x02u8, 0x82, 0xA0];
    assert_decodes_to(&wrap_content(&jis), "\u{3042}", CharacterSet::JisX0208);
    let cp1252 = [CHARSET_DBCS, 0x04, 0xE4, 0x80];
    assert_decodes_to(&wrap_content(&cp1252), "\u{20AC}", CharacterSet::Dbcs(1252));
    let cp437 = [CHARSET_DBCS, 0x01, 0xB5, 0x80];
    assert_decodes_to(&wrap_content(&cp437), "\u{C7}", CharacterSet::Dbcs(437));
}

#[test]
fn iso_8859_1_text_is_converted() {
    let s = CharacterString::new(StringEncoding::ISO88591, vec![0x41, 0xE9, 0xFF]);
    assert_eq!(s.to_string().unwrap(), "A\u{e9}\u{ff}");
}

#[test]
fn ucs2_text_pairs_surrogates_and_replaces_lone_ones() {
    let s = CharacterString::new(StringEncoding::UCS2, vec![0xDC, 0x00, 0xD8, 0x3D, 0xDE, 0x00, 0xD8, 0x00, 0x00, 0x41]);
    assert_eq!(s.to_string().unwrap(), "\u{FFFD}\u{1F600}\u{FFFD}A");
}
