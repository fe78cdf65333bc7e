//! Frame validation and pattern detection.

use bacnet_rs::datalink::validation::{
    detect_patterns, validate_bacnet_ip_frame, validate_ethernet_frame, validate_frame, validate_mstp_frame, Pattern,
    ValidationError, ValidationWarning,
};
use bacnet_rs::datalink::DataLinkType;


#[test]
fn test_bacnet_ip_validation() {
    // Valid frame
    let valid_frame = vec![
        0x81, 0x0A, 0x00, 0x08, // BVLC header
        0x01, 0x00, 0x00, 0x00, // NPDU
    ];
    let result = validate_bacnet_ip_frame(&valid_frame);
    assert!(result.is_valid);
    assert!(result.errors.is_empty());

    // Invalid BVLC type
    let invalid_frame = vec![0x82, 0x0A, 0x00, 0x04];
    let result = validate_bacnet_ip_frame(&invalid_frame);
    assert!(!result.is_valid);
    assert!(result.errors.iter().any(|e| matches!(e, ValidationError::InvalidPreamble { .. })));

    // Length mismatch
    let invalid_frame = vec![0x81, 0x0A, 0x00, 0x10, 0x01, 0x02];
    let result = validate_bacnet_ip_frame(&invalid_frame);
    assert!(!result.is_valid);
    assert!(result.errors.iter().any(|e| matches!(e, ValidationError::PayloadSizeMismatch { .. })));
}

#[test]
fn test_ethernet_validation() {
    // Valid frame
    let mut valid_frame = vec![0u8; 60];
    // Set Ethernet type
    valid_frame[12] = 0x82;
    valid_frame[13] = 0xDC;
    // Set LLC header
    valid_frame[14] = 0x82;
    valid_frame[15] = 0x82;
    valid_frame[16] = 0x03;
    
    let result = validate_ethernet_frame(&valid_frame);
    assert!(result.is_valid);

    // Wrong Ethernet type
    valid_frame[12] = 0x08;
    valid_frame[13] = 0x00;
    let result = validate_ethernet_frame(&valid_frame);
    assert!(!result.is_valid);
}

#[test]
fn test_auto_detection() {
    // MS/TP frame
    let mstp_frame = vec![0x55, 0xFF, 0x00, 0x02, 0x01, 0x00, 0x00, 0xDB];
    let result = validate_frame(&mstp_frame);
    assert_eq!(result.link_type, Some(DataLinkType::MsTP));

    // BACnet/IP frame
    let bip_frame = vec![0x81, 0x0A, 0x00, 0x04];
    let result = validate_frame(&bip_frame);
    assert_eq!(result.link_type, Some(DataLinkType::BacnetIp));

    // Unknown frame
    let unknown_frame = vec![0xFF, 0xFF, 0xFF];
    let result = validate_frame(&unknown_frame);
    assert_eq!(result.link_type, None);
}

#[test]
fn test_pattern_detection() {
    // Frame with padding
    let mut frame = vec![0x01, 0x02, 0x03, 0x04];
    frame.extend_from_slice(&[0x00; 10]);
    
    let patterns = detect_patterns(&frame);
    assert!(patterns.iter().any(|p| matches!(p, Pattern::Padding { .. })));

    // Frame with ASCII text
    let frame = b"Test BACnet Frame";
    let patterns = detect_patterns(frame);
    assert!(patterns.iter().any(|p| matches!(p, Pattern::AsciiText { .. })));
}

#[test]
fn test_mstp_validation() {
    // Valid token frame
    let frame = vec![
        0x55, 0xFF, // Preamble
        0x00, // Token frame
        0x02, // Destination
        0x01, // Source
        0x00, 0x00, // Data length = 0
        0xDB, // Header CRC (calculated for this header)
    ];

    let result = validate_mstp_frame(&frame);
    assert!(result.errors.is_empty() || !result.errors.iter().any(|e| matches!(e, ValidationError::CrcMismatch { .. })));

    // Invalid preamble
    let mut invalid_frame = frame.clone();
    invalid_frame[0] = 0xAA;
    let result = validate_mstp_frame(&invalid_frame);
    assert!(!result.is_valid);
}

#[test]
fn mstp_header_crc_is_checked_as_annex_g_computes_it() {
    // The Annex G header CRC of 00 02 01 00 00 is 0x73.
    let frame = vec![0x55, 0xFF, 0x00, 0x02, 0x01, 0x00, 0x00, 0x73];
    let result = validate_mstp_frame(&frame);
    assert!(result.is_valid);
    assert!(result.errors.is_empty());
    assert!(result.warnings.is_empty());
    let mut other = frame.clone();
    other[7] = 0xDB;
    let result = validate_mstp_frame(&other);
    assert!(result.is_valid);
    assert!(result.errors.is_empty());
    assert_eq!(result.warnings.len(), 1);
    assert!(matches!(
        &result.warnings[0],
        ValidationWarning::NonStandardConfiguration { reason } if reason == "Header CRC 219 differs from the calculated 115"
    ));
}

#[test]
fn detected_patterns_in_order() {
    let mut frame = b"ABCDE".to_vec();
    frame.push(0x01);
    frame.extend_from_slice(&[0xAA; 5]);
    let patterns = detect_patterns(&frame);
    assert_eq!(patterns.len(), 2);
    assert!(matches!(patterns[0], Pattern::Padding { start: 6, length: 5, value: 0xAA }));
    match &patterns[1] {
        Pattern::AsciiText { start, text } => {
            assert_eq!(*start, 0);
            assert_eq!(text, "ABCDE");
        },
        _ => panic!("expected text"),
    }
    let sequential = [0u8, 1, 2, 3, 4, 5, 6, 7];
    let patterns = detect_patterns(&sequential);
    assert_eq!(patterns.len(), 1);
    match &patterns[0] {
        Pattern::Suspicious { description } => assert_eq!(description, "Frame starts with sequential test pattern"),
        _ => panic!("expected suspicious"),
    }
    assert!(detect_patterns(&[1, 2, 3]).is_empty());
}

#[test]
fn count_bytes_distribution_and_runs() {
    let data = [0x00, 0x00, 0x81, 0x41, 0x41, 0x41, 0xFF, 0x00];
    let counts = bacnet_rs::datalink::validation::count_bytes(&data);
    assert_eq!(counts.byte_distribution.len(), 256);
    assert_eq!(counts.byte_distribution[0x00], 3);
    assert_eq!(counts.byte_distribution[0x41], 3);
    assert_eq!(counts.byte_distribution[0x81], 1);
    assert_eq!(counts.byte_distribution[0x42], 0);
    assert_eq!(counts.null_bytes, 3);
    assert_eq!(counts.high_bytes, 2);
    assert_eq!(counts.longest_run, (0x41, 3));
}

#[test]
fn count_bytes_first_longest_run_wins() {
    let counts = bacnet_rs::datalink::validation::count_bytes(&[7, 7, 9, 9, 5]);
    assert_eq!(counts.longest_run, (7, 2));
    let counts = bacnet_rs::datalink::validation::count_bytes(&[1, 2, 2, 2]);
    assert_eq!(counts.longest_run, (2, 3));
    let empty = bacnet_rs::datalink::validation::count_bytes(&[]);
    assert_eq!(empty.longest_run, (0, 0));
    assert_eq!(empty.null_bytes, 0);
}
