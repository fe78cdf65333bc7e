//! APDUs, invoke IDs and segmentation.

use bacnet_rs::app::{
    Apdu, ApplicationError, InvokeIdManager, MaxApduSize, MaxSegments, SegmentReassemblyBuffer, SegmentationInfo,
    SegmentationManager,
};


#[test]
fn test_unconfirmed_request_encode_decode() {
    let apdu = Apdu::UnconfirmedRequest {
        service_choice: 8, // WhoIs
        service_data: vec![0x08, 0x7B, 0x18, 0x7B], // Range 123-123
    };

    let encoded = apdu.encode();
    let decoded = Apdu::decode(&encoded).unwrap();

    match decoded {
        Apdu::UnconfirmedRequest {
            service_choice,
            service_data,
        } => {
            assert_eq!(service_choice, 8);
            assert_eq!(service_data, vec![0x08, 0x7B, 0x18, 0x7B]);
        }
        _ => panic!("Expected UnconfirmedRequest"),
    }
}

#[test]
fn test_simple_ack_encode_decode() {
    let apdu = Apdu::SimpleAck {
        invoke_id: 42,
        service_choice: 12, // ReadProperty
    };

    let encoded = apdu.encode();
    let decoded = Apdu::decode(&encoded).unwrap();

    match decoded {
        Apdu::SimpleAck {
            invoke_id,
            service_choice,
        } => {
            assert_eq!(invoke_id, 42);
            assert_eq!(service_choice, 12);
        }
        _ => panic!("Expected SimpleAck"),
    }
}

#[test]
fn test_confirmed_request_encode_decode() {
    let apdu = Apdu::ConfirmedRequest {
        segmented: false,
        more_follows: false,
        segmented_response_accepted: true,
        max_segments: MaxSegments::Unspecified,
        max_response_size: MaxApduSize::Up1476,
        invoke_id: 123,
        sequence_number: None,
        proposed_window_size: None,
        service_choice: 12, // ReadProperty
        service_data: vec![0x0C, 0x02, 0x00, 0x00, 0x08, 0x19, 0x55],
    };

    let encoded = apdu.encode();
    let decoded = Apdu::decode(&encoded).unwrap();

    match decoded {
        Apdu::ConfirmedRequest {
            invoke_id,
            service_choice,
            segmented_response_accepted,
            ..
        } => {
            assert_eq!(invoke_id, 123);
            assert_eq!(service_choice, 12);
            assert_eq!(segmented_response_accepted, true);
        }
        _ => panic!("Expected ConfirmedRequest"),
    }
}

#[test]
fn test_invoke_id_manager() {
    let mut manager = InvokeIdManager::new();

    // Get some IDs
    let id1 = manager.next_id().unwrap();
    let id2 = manager.next_id().unwrap();
    let id3 = manager.next_id().unwrap();

    assert_ne!(id1, id2);
    assert_ne!(id2, id3);
    assert_ne!(id1, id3);

    // Check if they're active
    assert!(manager.is_active(id1));
    assert!(manager.is_active(id2));
    assert!(manager.is_active(id3));

    // Release one
    manager.release_id(id2);
    assert!(!manager.is_active(id2));
    assert!(manager.is_active(id1));
    assert!(manager.is_active(id3));
}

#[test]
fn test_max_apdu_size() {
    assert_eq!(MaxApduSize::Up50.size(), 50);
    assert_eq!(MaxApduSize::Up128.size(), 128);
    assert_eq!(MaxApduSize::Up1476.size(), 1476);
}

#[test]
fn test_segmentation_info() {
    let seg_info = SegmentationInfo::new(
        true,   // more_follows
        true,   // segmented_response_accepted
        64,     // max_segments_accepted
        1476,   // max_apdu_length_accepted
        5,      // sequence_number
        10,     // proposed_window_size
    );

    assert!(seg_info.more_follows);
    assert!(seg_info.segmented_response_accepted);
    assert_eq!(seg_info.max_segments_accepted, 64);
    assert_eq!(seg_info.max_apdu_length_accepted, 1476);
    assert_eq!(seg_info.sequence_number, 5);
    assert_eq!(seg_info.proposed_window_size, 10);

    assert!(!seg_info.is_first_segment());
    assert!(!seg_info.is_last_segment());
    assert_eq!(seg_info.max_segment_size(), 1470); // 1476 - 6 bytes overhead

    // Test first segment
    let first_seg = SegmentationInfo::new(false, true, 32, 1024, 0, 8);
    assert!(first_seg.is_first_segment());
    assert!(first_seg.is_last_segment()); // more_follows is false

    // Test last segment
    let last_seg = SegmentationInfo::new(false, true, 16, 480, 3, 5);
    assert!(!last_seg.is_first_segment());
    assert!(last_seg.is_last_segment());
}

#[test]
fn test_segment_reassembly_buffer() {
    let mut buffer = SegmentReassemblyBuffer::new(42, 1024);
    assert_eq!(buffer.invoke_id, 42);
    assert_eq!(buffer.max_apdu_length, 1024);
    assert!(!buffer.is_complete());
    assert_eq!(buffer.missing_segments(), vec![]);

    // Add segments
    buffer.add_segment(0, vec![1, 2, 3], false).unwrap();
    buffer.add_segment(1, vec![4, 5, 6], false).unwrap();
    buffer.add_segment(2, vec![7, 8, 9], true).unwrap(); // Last segment

    assert!(buffer.is_complete());
    assert_eq!(buffer.total_segments, Some(3));

    // Test reassembly
    let reassembled = buffer.reassemble().unwrap();
    assert_eq!(reassembled, vec![1, 2, 3, 4, 5, 6, 7, 8, 9]);

    // Test missing segments with incomplete buffer
    let mut incomplete_buffer = SegmentReassemblyBuffer::new(43, 1024);
    incomplete_buffer.add_segment(0, vec![1, 2], false).unwrap();
    incomplete_buffer.add_segment(2, vec![5, 6], true).unwrap(); // Missing segment 1
    
    assert!(!incomplete_buffer.is_complete());
    assert_eq!(incomplete_buffer.missing_segments(), vec![1]);
}

#[test]
fn test_segmentation_manager() {
    let mut manager = SegmentationManager::new();
    assert_eq!(manager.active_reassemblies(), 0);

    // Test message segmentation
    let large_data = vec![0u8; 100]; // 100 bytes of data
    let segments = manager.segment_message(&large_data, 30, 10).unwrap();
    assert_eq!(segments.len(), 4); // 100 / 30 = 3.33, rounded up to 4
    assert_eq!(segments[0].len(), 30);
    assert_eq!(segments[1].len(), 30);
    assert_eq!(segments[2].len(), 30);
    assert_eq!(segments[3].len(), 10); // Remaining 10 bytes

    // Test segment processing
    let invoke_id = 100;
    let max_apdu = 1024;

    // Process first segment
    let result1 = manager.process_segment(invoke_id, 0, vec![1, 2, 3], true, max_apdu).unwrap();
    assert!(result1.is_none()); // Not complete yet
    assert_eq!(manager.active_reassemblies(), 1);

    // Process second segment
    let result2 = manager.process_segment(invoke_id, 1, vec![4, 5, 6], false, max_apdu).unwrap();
    assert!(result2.is_some()); // Complete!
    assert_eq!(result2.unwrap(), vec![1, 2, 3, 4, 5, 6]);
    assert_eq!(manager.active_reassemblies(), 0); // Buffer was removed

    // Test missing segments query
    manager.process_segment(200, 0, vec![10, 20], true, max_apdu).unwrap();
    manager.process_segment(200, 2, vec![50, 60], false, max_apdu).unwrap();
    let missing = manager.get_missing_segments(200);
    assert_eq!(missing, vec![1]);
}

#[test]
fn test_segmentation_error_cases() {
    let manager = SegmentationManager::new();

    // Test message too large for segmentation
    let huge_data = vec![0u8; 1000];
    let result = manager.segment_message(&huge_data, 100, 5); // Only 5 segments allowed
    assert!(result.is_err());
    match result.unwrap_err() {
        ApplicationError::SegmentationError(msg) => {
            assert!(msg.contains("too large"));
        }
        _ => panic!("Expected SegmentationError"),
    }

    // Test reassembling incomplete segments
    let mut buffer = SegmentReassemblyBuffer::new(1, 100);
    buffer.add_segment(0, vec![1, 2], false).unwrap();
    // Missing segment 1, but we don't know total count yet
    let result = buffer.reassemble();
    assert!(result.is_err());
    match result.unwrap_err() {
        ApplicationError::SegmentationError(msg) => {
            assert!(msg.contains("Incomplete"));
        }
        _ => panic!("Expected SegmentationError"),
    }
}

#[test]
fn test_segmentation_duplicate_handling() {
    let mut buffer = SegmentReassemblyBuffer::new(1, 1024);
    
    // Add segment 0
    buffer.add_segment(0, vec![1, 2, 3], false).unwrap();
    assert_eq!(buffer.segments.len(), 1);
    
    // Add duplicate segment 0 (should be ignored)
    buffer.add_segment(0, vec![4, 5, 6], false).unwrap();
    assert_eq!(buffer.segments.len(), 1);
    assert_eq!(buffer.segments[0].1, vec![1, 2, 3]); // Original data preserved
    
    // Add segment 1 as last
    buffer.add_segment(1, vec![7, 8, 9], true).unwrap();
    assert_eq!(buffer.segments.len(), 2);
    assert!(buffer.is_complete());
    
    let reassembled = buffer.reassemble().unwrap();
    assert_eq!(reassembled, vec![1, 2, 3, 7, 8, 9]);
}

#[test]
fn application_error_texts() {
    assert_eq!(ApplicationError::Timeout.to_string(), "Application timeout");
    assert_eq!(
        ApplicationError::SegmentationError("Incomplete segments".to_string()).to_string(),
        "Segmentation error: Incomplete segments"
    );
    assert_eq!(ApplicationError::MaxApduLengthExceeded.to_string(), "Maximum APDU length exceeded");
}

#[test]
fn reassembly_longer_than_its_limit_is_refused() {
    let mut manager = SegmentationManager::new();
    let first = manager.process_segment(5, 0, vec![1, 2, 3], true, 4).unwrap();
    assert!(first.is_none());
    let second = manager.process_segment(5, 1, vec![4, 5], false, 4);
    assert!(matches!(second, Err(ApplicationError::MaxApduLengthExceeded)));
    assert_eq!(manager.active_reassemblies(), 1);
}

#[test]
fn timed_out_buffers_are_kept_while_the_timeout_is_long() {
    let mut manager = SegmentationManager::new();
    manager.process_segment(1, 0, vec![1], true, 100).unwrap();
    manager.process_segment(2, 0, vec![2], true, 100).unwrap();
    manager.set_segment_timeout(std::time::Duration::from_secs(3600));
    manager.cleanup_timed_out_buffers();
    assert_eq!(manager.active_reassemblies(), 2);
    let buffer = SegmentReassemblyBuffer::new(1, 10);
    assert!(!buffer.is_timed_out(std::time::Duration::from_secs(3600)));
}

#[test]
fn a_full_manager_makes_room_for_a_new_message() {
    let mut manager = SegmentationManager::new();
    for id in 0..16u8 {
        manager.process_segment(id, 0, vec![id], true, 100).unwrap();
    }
    assert_eq!(manager.active_reassemblies(), 16);
    manager.process_segment(200, 0, vec![1], true, 100).unwrap();
    assert_eq!(manager.active_reassemblies(), 16);
    assert_eq!(manager.get_missing_segments(200), Vec::<u8>::new());
}

#[test]
fn segments_in_any_order_complete_the_message() {
    let mut b = SegmentReassemblyBuffer::new(9, 1024);
    b.add_segment(2, vec![7], true).unwrap();
    assert!(!b.is_complete());
    assert_eq!(b.missing_segments(), vec![0, 1]);
    b.add_segment(0, vec![1], false).unwrap();
    b.add_segment(0, vec![9], false).unwrap();
    assert_eq!(b.missing_segments(), vec![1]);
    b.add_segment(1, vec![4], false).unwrap();
    assert!(b.is_complete());
    assert!(b.missing_segments().is_empty());
    assert_eq!(b.reassemble().unwrap(), vec![1, 4, 7]);

    let mut open = SegmentReassemblyBuffer::new(10, 1024);
    open.add_segment(0, vec![1], false).unwrap();
    assert!(!open.is_complete());
    assert!(open.missing_segments().is_empty());
}
