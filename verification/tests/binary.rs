//! Binary objects: values, change of state and command priorities.

use bacnet_rs::object::{BinaryInput, BinaryOutput, BinaryPV, BinaryValue, ObjectError, Polarity};


#[test]
fn test_binary_pv_conversions() {
    assert_eq!(BinaryPV::from(true), BinaryPV::Active);
    assert_eq!(BinaryPV::from(false), BinaryPV::Inactive);
    assert_eq!(bool::from(BinaryPV::Active), true);
    assert_eq!(bool::from(BinaryPV::Inactive), false);
}

#[test]
fn test_binary_input_creation() {
    let bi = BinaryInput::new(1, "Door Switch".to_string());
    assert_eq!(bi.identifier.instance, 1);
    assert_eq!(bi.object_name, "Door Switch");
    assert_eq!(bi.present_value, BinaryPV::Inactive);
    assert_eq!(bi.change_of_state_count, 0);
}

#[test]
fn test_binary_input_change_of_state() {
    let mut bi = BinaryInput::new(1, "Test".to_string());
    
    bi.set_present_value(BinaryPV::Active);
    assert_eq!(bi.present_value, BinaryPV::Active);
    assert_eq!(bi.change_of_state_count, 1);

    bi.set_present_value(BinaryPV::Active); // Same value, no change
    assert_eq!(bi.change_of_state_count, 1);

    bi.set_present_value(BinaryPV::Inactive);
    assert_eq!(bi.change_of_state_count, 2);
}

#[test]
fn test_binary_output_priority() {
    let mut bo = BinaryOutput::new(1, "Fan Control".to_string());
    
    // Write to priority 8
    bo.write_priority(8, Some(BinaryPV::Active)).unwrap();
    assert_eq!(bo.present_value, BinaryPV::Active);
    assert_eq!(bo.get_effective_priority(), Some(8));

    // Write to higher priority 3
    bo.write_priority(3, Some(BinaryPV::Inactive)).unwrap();
    assert_eq!(bo.present_value, BinaryPV::Inactive);
    assert_eq!(bo.get_effective_priority(), Some(3));

    // Release priority 3
    bo.write_priority(3, None).unwrap();
    assert_eq!(bo.present_value, BinaryPV::Active);
    assert_eq!(bo.get_effective_priority(), Some(8));
}


#[test]
fn binary_value_priority_relinquish_falls_back_to_default() {
    let mut bv = BinaryValue::new(7, "Flag".to_string());
    assert_eq!(bv.present_value, BinaryPV::Inactive);
    bv.write_priority(16, Some(BinaryPV::Active)).unwrap();
    assert_eq!(bv.present_value, BinaryPV::Active);
    bv.write_priority(1, Some(BinaryPV::Inactive)).unwrap();
    assert_eq!(bv.present_value, BinaryPV::Inactive);
    bv.write_priority(1, None).unwrap();
    assert_eq!(bv.present_value, BinaryPV::Active);
    bv.write_priority(16, None).unwrap();
    assert_eq!(bv.present_value, bv.relinquish_default);
    assert!(bv.priority_array.iter().all(|p| p.is_none()));
}

#[test]
fn priority_outside_range_is_refused_and_changes_nothing() {
    let mut bo = BinaryOutput::new(1, "Pump".to_string());
    for p in [0u8, 17, 255] {
        match bo.write_priority(p, Some(BinaryPV::Active)) {
            Err(ObjectError::InvalidValue(msg)) => assert_eq!(msg, "Priority must be 1-16"),
            _ => panic!("expected InvalidValue"),
        }
    }
    assert_eq!(bo.present_value, BinaryPV::Inactive);
    assert_eq!(bo.get_effective_priority(), None);
}

#[test]
fn status_flags_round_trip() {
    let mut bi = BinaryInput::new(3, "Contact".to_string());
    for bits in 0u8..16 {
        let flags = (bits & 8 != 0, bits & 4 != 0, bits & 2 != 0, bits & 1 != 0);
        bi.set_status_flags(flags.0, flags.1, flags.2, flags.3);
        assert_eq!(bi.status_flags, bits);
        assert_eq!(bi.get_status_flags(), flags);
    }
}

#[test]
fn binary_codes() {
    assert_eq!(BinaryPV::Inactive.code(), 0);
    assert_eq!(BinaryPV::Active.code(), 1);
    let bi = BinaryInput::new(1, "x".to_string());
    assert_eq!(bi.inactive_text, "INACTIVE");
    assert_eq!(bi.active_text, "ACTIVE");
    assert_eq!(bi.polarity, Polarity::Normal);
}
