//! BACnet/IP virtual link control headers.

use bacnet_rs::datalink::bip::{bvlc_frame, process_bvlc_message, BvlcFunction, BvlcHeader, BvlcMessage};
use bacnet_rs::datalink::DataLinkError;


#[test]
fn test_bvlc_header_encode_decode() {
    let header = BvlcHeader::new(BvlcFunction::OriginalUnicastNpdu, 1024);
    let encoded = header.encode();
    
    assert_eq!(encoded.len(), 4);
    assert_eq!(encoded[0], 0x81);
    assert_eq!(encoded[1], 0x0A);
    assert_eq!(encoded[2], 0x04);
    assert_eq!(encoded[3], 0x00);

    let decoded = BvlcHeader::decode(&encoded).unwrap();
    assert_eq!(decoded.bvlc_type, 0x81);
    assert_eq!(decoded.function, BvlcFunction::OriginalUnicastNpdu);
    assert_eq!(decoded.length, 1024);
}


#[test]
fn bvlc_decode_refuses_short_or_foreign_headers() {
    assert!(BvlcHeader::decode(&[0x81, 0x0A, 0x00]).is_err());
    assert!(BvlcHeader::decode(&[0x82, 0x0A, 0x00, 0x04]).is_err());
    let header = BvlcHeader::new(BvlcFunction::OriginalBroadcastNpdu, 4);
    assert_eq!(header.encode(), vec![0x81, 0x0B, 0x00, 0x04]);
}

#[test]
fn data_link_error_texts() {
    assert_eq!(DataLinkError::InvalidFrame.to_string(), "Invalid frame format");
    assert_eq!(DataLinkError::CrcError.to_string(), "CRC check failed");
    assert_eq!(DataLinkError::AddressError("bad".to_string()).to_string(), "Address error: bad");
    let io = std::io::Error::new(std::io::ErrorKind::Other, "down");
    assert!(DataLinkError::IoError(io).to_string().starts_with("I/O error: "));
}

#[test]
fn bvlc_frame_carries_npdu_and_is_read_back() {
    let npdu = [0x01u8, 0x04, 0x00, 0x05];
    let frame = bvlc_frame(BvlcFunction::OriginalUnicastNpdu, &npdu);
    assert_eq!(frame, vec![0x81, 0x0A, 0x00, 0x08, 0x01, 0x04, 0x00, 0x05]);
    assert_eq!(process_bvlc_message(&frame).unwrap(), BvlcMessage::Npdu(npdu.to_vec()));

    let broadcast = bvlc_frame(BvlcFunction::OriginalBroadcastNpdu, &npdu);
    assert_eq!(broadcast[1], 0x0B);
    assert_eq!(process_bvlc_message(&broadcast).unwrap(), BvlcMessage::Npdu(npdu.to_vec()));
}

#[test]
fn bvlc_forwarded_npdu_skips_the_source_address() {
    let frame = vec![0x81, 0x04, 0x00, 0x0C, 192, 168, 1, 10, 0xBA, 0xC0, 0x01, 0x00];
    assert_eq!(process_bvlc_message(&frame).unwrap(), BvlcMessage::Npdu(vec![0x01, 0x00]));
    let short = vec![0x81, 0x04, 0x00, 0x0A, 192, 168, 1, 10, 0xBA, 0xC0];
    assert!(matches!(process_bvlc_message(&short), Err(DataLinkError::InvalidFrame)));
}

#[test]
fn bvlc_registration_and_other_messages() {
    let register = bvlc_frame(BvlcFunction::RegisterForeignDevice, &[0x01, 0x2C]);
    assert_eq!(register, vec![0x81, 0x05, 0x00, 0x06, 0x01, 0x2C]);
    assert_eq!(process_bvlc_message(&register).unwrap(), BvlcMessage::ForeignRegistration(300));
    let odd = vec![0x81, 0x05, 0x00, 0x05, 0x01];
    assert_eq!(process_bvlc_message(&odd).unwrap(), BvlcMessage::NoNpdu);
    let read_bdt = vec![0x81, 0x02, 0x00, 0x04];
    assert_eq!(process_bvlc_message(&read_bdt).unwrap(), BvlcMessage::NoNpdu);
    let result = vec![0x81, 0x00, 0x00, 0x06, 0x00, 0x00];
    assert!(matches!(process_bvlc_message(&result), Err(DataLinkError::InvalidFrame)));
}

#[test]
fn bvlc_length_mismatch_and_empty_npdu_are_refused() {
    let wrong_length = vec![0x81, 0x0A, 0x00, 0x09, 0x01, 0x04, 0x00, 0x05];
    assert!(matches!(process_bvlc_message(&wrong_length), Err(DataLinkError::InvalidFrame)));
    let empty = vec![0x81, 0x0A, 0x00, 0x04];
    assert!(matches!(process_bvlc_message(&empty), Err(DataLinkError::InvalidFrame)));
    assert!(matches!(process_bvlc_message(&[0x81, 0x0A]), Err(DataLinkError::InvalidFrame)));
}
