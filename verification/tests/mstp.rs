//! MS/TP frames, header checks and station addresses.

use bacnet_rs::datalink::mstp::{
    calculate_header_crc, is_master_node, MstpConfig, MstpNode, MstpState, is_slave_node, validate_mstp_address, MstpFrame, MstpFrameType,
    MSTP_MAX_DATA_LENGTH,
};


#[test]
fn test_mstp_frame_encode_decode() {
    // Test token frame
    let token_frame = MstpFrame::token(5, 3).unwrap();
    let encoded = token_frame.encode();
    let decoded = MstpFrame::decode(&encoded).unwrap();
    
    assert_eq!(decoded.frame_type, MstpFrameType::Token);
    assert_eq!(decoded.destination, 5);
    assert_eq!(decoded.source, 3);
    assert_eq!(decoded.data_length, 0);
    assert!(decoded.data.is_empty());
    assert!(decoded.data_crc.is_none());

    // Test data frame
    let data = vec![0x01, 0x02, 0x03, 0x04];
    let data_frame = MstpFrame::bacnet_data(10, 20, data.clone(), true).unwrap();
    let encoded = data_frame.encode();
    let decoded = MstpFrame::decode(&encoded).unwrap();
    
    assert_eq!(decoded.frame_type, MstpFrameType::BacnetDataExpectingReply);
    assert_eq!(decoded.destination, 10);
    assert_eq!(decoded.source, 20);
    assert_eq!(decoded.data_length, 4);
    assert_eq!(decoded.data, data);
    assert!(decoded.data_crc.is_some());
}

#[test]
fn test_header_crc() {
    let header = [0x00, 0x05, 0x03, 0x00, 0x00]; // Token frame header
    let crc = calculate_header_crc(&header);
    
    // Create frame and verify CRC matches
    let frame = MstpFrame::token(5, 3).unwrap();
    assert_eq!(frame.header_crc, crc);
}

#[test]
fn mstp_test_frame_validation() {
    // Test invalid preamble
    let mut bad_frame = vec![0x00, 0xFF]; // Wrong first preamble byte
    bad_frame.extend_from_slice(&[0x00, 0x05, 0x03, 0x00, 0x00, 0x00]);
    assert!(MstpFrame::decode(&bad_frame).is_err());

    // Test invalid frame type
    let mut bad_frame = vec![0x55, 0xFF, 0xFF]; // Invalid frame type
    bad_frame.extend_from_slice(&[0x05, 0x03, 0x00, 0x00, 0x00]);
    assert!(MstpFrame::decode(&bad_frame).is_err());

    // Test too short
    let bad_frame = vec![0x55, 0xFF, 0x00];
    assert!(MstpFrame::decode(&bad_frame).is_err());
}

#[test]
fn test_address_validation() {
    assert!(validate_mstp_address(0).is_ok()); // Master
    assert!(validate_mstp_address(127).is_ok()); // Master
    assert!(validate_mstp_address(128).is_ok()); // Slave
    assert!(validate_mstp_address(254).is_ok()); // Slave
    assert!(validate_mstp_address(255).is_ok()); // Broadcast
    
    assert!(is_master_node(0));
    assert!(is_master_node(127));
    assert!(!is_master_node(128));
    
    assert!(!is_slave_node(127));
    assert!(is_slave_node(128));
    assert!(is_slave_node(254));
    assert!(!is_slave_node(255));
}

#[test]
fn test_max_data_length() {
    let data = vec![0u8; MSTP_MAX_DATA_LENGTH + 1];
    let result = MstpFrame::bacnet_data(10, 20, data, false);
    assert!(result.is_err());
    
    let data = vec![0u8; MSTP_MAX_DATA_LENGTH];
    let result = MstpFrame::bacnet_data(10, 20, data, false);
    assert!(result.is_ok());
}


#[test]
fn header_crc_of_a_token_frame() {
    assert_eq!(calculate_header_crc(&[0x00, 0x02, 0x01, 0x00, 0x00]), 0x73);
    let frame = MstpFrame::token(2, 1).unwrap();
    assert_eq!(frame.encode(), vec![0x55, 0xFF, 0x00, 0x02, 0x01, 0x00, 0x00, 0x73]);
}

#[test]
fn mstp_node_starts_with_the_token_for_the_next_station() {
    let config = MstpConfig { station_address: 5, ..Default::default() };
    let node = MstpNode::new(config);
    assert_eq!(node.state, MstpState::Initialize);
    assert_eq!(node.token_holder, None);
    assert_eq!(node.next_station, 6);
    let last = MstpNode::new(MstpConfig { station_address: 127, ..Default::default() });
    assert_eq!(last.next_station, 0);
}

#[test]
fn mstp_node_queues_and_sends_with_the_token() {
    let config = MstpConfig { station_address: 5, max_info_frames: 2, ..Default::default() };
    let mut node = MstpNode::new(config);
    let npdu = vec![0x01, 0x02, 0x03, 0x04];
    assert!(node.queue_data_frame(npdu.clone(), 10).is_ok());
    assert!(node.queue_data_frame(npdu.clone(), 255).is_ok());
    assert!(node.queue_data_frame(vec![0x09], 11).is_ok());
    assert!(node.queue_data_frame(vec![0u8; MSTP_MAX_DATA_LENGTH + 1], 10).is_err());
    assert_eq!(node.send_queue.len(), 3);

    let sent = node.handle_token();
    assert_eq!(sent.len(), 3);
    assert_eq!(sent[0].destination, 10);
    assert_eq!(sent[0].frame_type, MstpFrameType::BacnetDataNotExpectingReply);
    assert_eq!(sent[0].data, npdu);
    assert_eq!(sent[1].destination, 255);
    assert!(sent[2].is_token());
    assert_eq!(sent[2].destination, 6);
    assert_eq!(sent[2].source, 5);
    assert_eq!(node.send_queue.len(), 1);
    assert_eq!(node.next_station, 7);

    let sent = node.handle_token();
    assert_eq!(sent.len(), 2);
    assert_eq!(sent[0].data, vec![0x09]);
    assert_eq!(sent[1].destination, 7);
    assert!(node.send_queue.is_empty());
}

#[test]
fn mstp_node_receives_data_and_token() {
    let mut node = MstpNode::new(MstpConfig { station_address: 5, ..Default::default() });
    assert!(node.receive_frame().is_err());
    node.simulate_receive(MstpFrame::bacnet_data(5, 9, vec![0xAA, 0xBB], true).unwrap());
    node.simulate_receive(MstpFrame::bacnet_data(5, 9, vec![], true).unwrap());
    node.simulate_receive(MstpFrame::token(4, 9).unwrap());
    assert_eq!(node.state, MstpState::Initialize);
    node.simulate_receive(MstpFrame::token(5, 9).unwrap());
    assert_eq!(node.state, MstpState::UseToken);
    assert_eq!(node.token_holder, Some(5));
    assert_eq!(node.receive_frame().unwrap(), (vec![0xAA, 0xBB], 9));
    assert!(node.receive_frame().is_err());
}
