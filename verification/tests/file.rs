//! The File object: stream and record access.

use bacnet_rs::object::{File, FileAccessMethod, ObjectError};


#[test]
fn test_file_creation() {
    let file = File::new(1, "config.txt".to_string(), "text/plain".to_string());
    assert_eq!(file.identifier.instance, 1);
    assert_eq!(file.object_name, "config.txt");
    assert_eq!(file.file_type, "text/plain");
    assert_eq!(file.file_size, 0);
}

#[test]
fn test_file_data_operations() {
    let mut file = File::new(1, "test.dat".to_string(), "application/octet-stream".to_string());
    
    // Set initial data
    let data = b"Hello, BACnet File!".to_vec();
    file.set_file_data(data.clone());
    assert_eq!(file.file_size, data.len() as u32);
    assert_eq!(file.get_file_data(), data.as_slice());

    // Test reading data
    let read_data = file.read_data(0, 5).unwrap();
    assert_eq!(read_data, b"Hello");

    let read_data = file.read_data(7, 6).unwrap();
    assert_eq!(read_data, b"BACnet");

    // Test writing data (overwrite "BACnet" with "Rust  ")
    file.write_data(7, b"Rust  ").unwrap();
    let expected = b"Hello, Rust   File!";
    assert_eq!(file.get_file_data(), expected);
}

#[test]
fn test_file_record_operations() {
    let mut file = File::new(1, "records.txt".to_string(), "text/plain".to_string());
    file.file_access_method = FileAccessMethod::RecordAccess;
    
    // Set initial records as line-separated data
    let initial_data = "Line 1\nLine 2\nLine 3\nLine 4".as_bytes().to_vec();
    file.set_file_data(initial_data);
    
    // Read records
    let records = file.read_records(1, 2).unwrap();
    assert_eq!(records.len(), 2);
    assert_eq!(records[0], b"Line 2");
    assert_eq!(records[1], b"Line 3");

    // Write records
    let new_records = vec![
        b"New Line 2".to_vec(),
        b"New Line 3".to_vec(),
    ];
    file.write_records(1, &new_records).unwrap();
    
    let updated_records = file.read_records(0, 4).unwrap();
    assert_eq!(updated_records[0], b"Line 1");
    assert_eq!(updated_records[1], b"New Line 2");
    assert_eq!(updated_records[2], b"New Line 3");
    assert_eq!(updated_records[3], b"Line 4");
}

#[test]
fn test_read_only_protection() {
    let mut file = File::new(1, "readonly.txt".to_string(), "text/plain".to_string());
    file.read_only = true;
    
    // Should fail to write data
    assert!(file.write_data(0, b"test").is_err());
    
    // Should fail to write records
    file.file_access_method = FileAccessMethod::RecordAccess;
    let records = vec![b"test".to_vec()];
    assert!(file.write_records(0, &records).is_err());
}

#[test]
fn writing_past_the_end_pads_with_zeros() {
    let mut file = File::new(2, "blob".to_string(), "application/octet-stream".to_string());
    file.set_file_data(vec![1, 2]);
    file.write_data(5, &[9, 9]).unwrap();
    assert_eq!(file.get_file_data(), &[1, 2, 0, 0, 0, 9, 9]);
    assert_eq!(file.file_size, 7);
    assert_eq!(file.read_data(6, 10).unwrap(), vec![9]);
    assert_eq!(file.read_data(7, 1).unwrap(), Vec::<u8>::new());
    assert_eq!(file.read_data(100, 1).unwrap(), Vec::<u8>::new());
}

#[test]
fn records_need_record_access() {
    let mut file = File::new(3, "log".to_string(), "text/plain".to_string());
    match file.read_records(0, 1) {
        Err(ObjectError::InvalidValue(msg)) => assert_eq!(msg, "File is not configured for record access"),
        _ => panic!("expected InvalidValue"),
    }
    assert!(file.write_records(0, &[b"a".to_vec()]).is_err());
}

#[test]
fn record_writes_extend_with_empty_lines() {
    let mut file = File::new(4, "r.txt".to_string(), "text/plain".to_string());
    file.file_access_method = FileAccessMethod::RecordAccess;
    file.set_file_data(b"one\r\ntwo\n".to_vec());
    assert_eq!(file.read_records(0, 5).unwrap(), vec![b"one".to_vec(), b"two".to_vec()]);
    file.write_records(3, &[b"four".to_vec()]).unwrap();
    assert_eq!(file.get_file_data(), b"one\ntwo\n\nfour");
    assert_eq!(file.record_count, Some(4));
    assert_eq!(file.file_size, 13);
    assert_eq!(file.read_records(2, 2).unwrap(), vec![Vec::<u8>::new(), b"four".to_vec()]);
}

#[test]
fn invalid_utf8_records_are_read_with_replacement() {
    let mut file = File::new(5, "bad".to_string(), "text/plain".to_string());
    file.file_access_method = FileAccessMethod::RecordAccess;
    file.set_file_data(vec![b'a', 0xFF, b'\n', b'b']);
    let records = file.read_records(0, 2).unwrap();
    assert_eq!(records[0], "a\u{FFFD}".as_bytes().to_vec());
    assert_eq!(records[1], b"b".to_vec());
    assert_eq!(FileAccessMethod::RecordAccess.code(), 0);
    assert_eq!(FileAccessMethod::StreamAccess.code(), 1);
}

#[test]
fn records_written_are_read_back() {
    let mut file = File::new(3, "log".to_string(), "text/plain".to_string());
    file.file_access_method = FileAccessMethod::RecordAccess;
    let records = vec![b"first".to_vec(), b"".to_vec(), b"third line".to_vec()];
    file.write_records(0, &records).unwrap();
    assert_eq!(file.read_records(0, 3).unwrap(), records);
    file.write_records(1, &[b"second".to_vec()]).unwrap();
    assert_eq!(
        file.read_records(0, 3).unwrap(),
        vec![b"first".to_vec(), b"second".to_vec(), b"third line".to_vec()]
    );
}
