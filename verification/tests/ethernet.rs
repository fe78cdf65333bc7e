//! BACnet/Ethernet frames and MAC addresses.

use bacnet_rs::datalink::ethernet::{
    format_mac_address, parse_mac_address, transmittable_frame, validate_ethernet_frame, EthernetFrame, BACNET_ETHERNET_TYPE,
    BACNET_LLC_HEADER, ETHERNET_BROADCAST_MAC, MIN_ETHERNET_FRAME_SIZE,
};


#[test]
fn test_ethernet_frame_encode_decode() {
    let dest_mac = [0x00, 0x11, 0x22, 0x33, 0x44, 0x55];
    let src_mac = [0xAA, 0xBB, 0xCC, 0xDD, 0xEE, 0xFF];
    let npdu = vec![0x01, 0x02, 0x03, 0x04];
    
    let frame = EthernetFrame::new(dest_mac, src_mac, npdu.clone());
    let encoded = frame.encode();
    
    // Check minimum size with padding
    assert!(encoded.len() >= MIN_ETHERNET_FRAME_SIZE);
    
    // Decode and verify
    let decoded = EthernetFrame::decode(&encoded).unwrap();
    assert_eq!(decoded.dest_mac, dest_mac);
    assert_eq!(decoded.src_mac, src_mac);
    assert_eq!(decoded.ether_type, BACNET_ETHERNET_TYPE);
    assert_eq!(decoded.llc_header, BACNET_LLC_HEADER);
    
    // Payload might have padding, so check prefix
    assert!(decoded.payload.starts_with(&npdu));
}

#[test]
fn test_broadcast_frame() {
    let src_mac = [0xAA, 0xBB, 0xCC, 0xDD, 0xEE, 0xFF];
    let npdu = vec![0x01, 0x02, 0x03, 0x04];
    
    let frame = EthernetFrame::broadcast(src_mac, npdu);
    assert_eq!(frame.dest_mac, ETHERNET_BROADCAST_MAC);
    assert!(frame.is_broadcast());
    assert!(frame.is_multicast());
}

#[test]
fn test_mac_address_parsing() {
    let mac_str = "00:11:22:33:44:55";
    let mac = parse_mac_address(mac_str).unwrap();
    assert_eq!(mac, [0x00, 0x11, 0x22, 0x33, 0x44, 0x55]);
    
    let formatted = format_mac_address(&mac);
    assert_eq!(formatted, "00:11:22:33:44:55");
    
    // Test invalid format
    assert!(parse_mac_address("invalid").is_err());
    assert!(parse_mac_address("00:11:22:33:44").is_err());
    assert!(parse_mac_address("00:11:22:33:44:GG").is_err());
}

#[test]
fn ethernet_test_frame_validation() {
    let dest_mac = [0x00, 0x11, 0x22, 0x33, 0x44, 0x55];
    let src_mac = [0xAA, 0xBB, 0xCC, 0xDD, 0xEE, 0xFF];
    let npdu = vec![0x01, 0x02, 0x03, 0x04];
    
    let frame = EthernetFrame::new(dest_mac, src_mac, npdu);
    let encoded = frame.encode();
    
    assert!(validate_ethernet_frame(&encoded).is_ok());
    
    // Test invalid frames
    assert!(validate_ethernet_frame(&[]).is_err()); // Too short
    assert!(validate_ethernet_frame(&encoded[..16]).is_err()); // Missing LLC
    
    // Test wrong Ethernet type
    let mut bad_frame = encoded.clone();
    bad_frame[12] = 0x08;
    bad_frame[13] = 0x00;
    assert!(validate_ethernet_frame(&bad_frame).is_err());
}


#[test]
fn transmittable_frame_refuses_oversized_frames() {
    let mac = [0x00, 0x11, 0x22, 0x33, 0x44, 0x55];
    let small = EthernetFrame::new(ETHERNET_BROADCAST_MAC, mac, vec![0x01, 0x00]);
    let bytes = transmittable_frame(&small).unwrap();
    assert_eq!(bytes.len(), MIN_ETHERNET_FRAME_SIZE);
    assert_eq!(bytes, small.encode());
    let fits = EthernetFrame::new(ETHERNET_BROADCAST_MAC, mac, vec![0u8; 1514 - 17]);
    assert_eq!(transmittable_frame(&fits).unwrap().len(), 1514);
    let big = EthernetFrame::new(ETHERNET_BROADCAST_MAC, mac, vec![0u8; 1514 - 16]);
    assert!(transmittable_frame(&big).is_err());
}

#[test]
fn formatted_mac_addresses_parse_back() {
    for mac in [[0u8; 6], [0xFF; 6], [0x0A, 0xB0, 0x9F, 0x10, 0x01, 0xC3]] {
        assert_eq!(parse_mac_address(&format_mac_address(&mac)).unwrap(), mac);
    }
}
