//! Date and time encoding and decoding.

use bacnet_rs::encoding::date_time::{decode_date, decode_time, encode_date, encode_time};


// --- Worked examples from ASHRAE 135-2024, Clause 20.2 ---

#[test]
fn spec_application_date_specific() {
    let mut buffer = Vec::new();
    encode_date(&mut buffer, 1991, 1, 24, 4).unwrap(); // Thursday = 4
    assert_eq!(buffer, [0xA4, 0x5B, 0x01, 0x18, 0x04]);
    let ((year, month, day, weekday), consumed) = decode_date(&buffer).unwrap();
    assert_eq!((year, month, day, weekday), (1991, 1, 24, 4));
    assert_eq!(consumed, buffer.len());
}

#[test]
fn spec_application_date_pattern() {
    // year = 1991, month unspecified, day = 24, weekday unspecified
    let mut buffer = Vec::new();
    encode_date(&mut buffer, 1991, 255, 24, 255).unwrap();
    assert_eq!(buffer, [0xA4, 0x5B, 0xFF, 0x18, 0xFF]);
    let ((year, month, day, weekday), consumed) = decode_date(&buffer).unwrap();
    assert_eq!((year, month, day, weekday), (1991, 255, 24, 255));
    assert_eq!(consumed, buffer.len());
}

#[test]
fn date_time_spec_application_time() {
    let mut buffer = Vec::new();
    encode_time(&mut buffer, 17, 35, 45, 17).unwrap();
    assert_eq!(buffer, [0xB4, 0x11, 0x23, 0x2D, 0x11]);
    let ((hour, minute, second, hundredths), consumed) = decode_time(&buffer).unwrap();
    assert_eq!((hour, minute, second, hundredths), (17, 35, 45, 17));
    assert_eq!(consumed, buffer.len());
}

// --- Wildcard / unspecified handling ---

#[test]
fn fully_unspecified_date_round_trips_without_overflow() {
    let mut buffer = Vec::new();
    encode_date(&mut buffer, 255, 255, 255, 255).unwrap();
    assert_eq!(buffer, [0xA4, 0xFF, 0xFF, 0xFF, 0xFF]);
    let ((year, month, day, weekday), _) = decode_date(&buffer).unwrap();
    assert_eq!((year, month, day, weekday), (255, 255, 255, 255));
}

#[test]
fn fully_unspecified_time_round_trips() {
    let mut buffer = Vec::new();
    encode_time(&mut buffer, 255, 255, 255, 255).unwrap();
    assert_eq!(buffer, [0xB4, 0xFF, 0xFF, 0xFF, 0xFF]);
    let ((hour, minute, second, hundredths), _) = decode_time(&buffer).unwrap();
    assert_eq!((hour, minute, second, hundredths), (255, 255, 255, 255));
}

#[test]
fn date_year_boundaries_round_trip() {
    // 2154 is the highest representable year: its wire octet is 254.
    // 2155 would be 255, which collides with the "unspecified"
    // sentinel, so it is not round-trippable (see
    // `year_2155_collides_with_unspecified_sentinel` below).
    for year in [1900u16, 1991, 2000, 2154] {
        let mut buffer = Vec::new();
        encode_date(&mut buffer, year, 6, 15, 3).unwrap();
        let ((decoded_year, ..), _) = decode_date(&buffer).unwrap();
        assert_eq!(decoded_year, year, "year {year}");
    }
}

#[test]
fn year_2155_collides_with_unspecified_sentinel() {
    let mut buffer = Vec::new();
    encode_date(&mut buffer, 2155, 6, 15, 3).unwrap();
    let ((decoded_year, ..), _) = decode_date(&buffer).unwrap();
    assert_eq!(
        decoded_year, 255,
        "encodes indistinguishably from unspecified"
    );
}

// --- Rejections ---

#[test]
fn rejects_wrong_tag_class_for_date() {
    // Context tag 0, length 4 (i.e. [0] date-shaped, not
    // application-tagged).
    let data = [0x04, 0x5B, 0x01, 0x18, 0x04];
    assert!(decode_date(&data).is_err());
}

#[test]
fn rejects_wrong_application_tag_number_for_date() {
    // Application tag 11 (Time), not 10 (Date).
    let data = [0xB4, 0x5B, 0x01, 0x18, 0x04];
    assert!(decode_date(&data).is_err());
}

#[test]
fn rejects_short_content_for_date() {
    let data = [0xA3, 0x5B, 0x01, 0x18];
    assert!(decode_date(&data).is_err());
}

#[test]
fn rejects_wrong_application_tag_number_for_time() {
    // Application tag 10 (Date), not 11 (Time).
    let data = [0xA4, 0x11, 0x23, 0x2D, 0x11];
    assert!(decode_time(&data).is_err());
}

#[test]
fn rejects_short_content_for_time() {
    let data = [0xB3, 0x11, 0x23, 0x2D];
    assert!(decode_time(&data).is_err());
}


#[test]
fn date_time_test_encode_decode_date() {
    let mut buffer = Vec::new();

    encode_date(&mut buffer, 2024, 3, 15, 5).unwrap(); // Friday, March 15, 2024
    let ((year, month, day, weekday), _) = decode_date(&buffer).unwrap();
    assert_eq!(year, 2024);
    assert_eq!(month, 3);
    assert_eq!(day, 15);
    assert_eq!(weekday, 5);
}

#[test]
fn date_time_test_encode_decode_time() {
    let mut buffer = Vec::new();

    encode_time(&mut buffer, 14, 30, 45, 50).unwrap(); // 14:30:45.50
    let ((hour, minute, second, hundredths), _) = decode_time(&buffer).unwrap();
    assert_eq!(hour, 14);
    assert_eq!(minute, 30);
    assert_eq!(second, 45);
    assert_eq!(hundredths, 50);
}
