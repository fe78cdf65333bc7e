//! Multi-state objects: states, their texts and command priorities.

use bacnet_rs::object::{MultiStateInput, MultiStateOutput, MultiStateValue, ObjectError};


#[test]
fn test_multistate_input_creation() {
    let msi = MultiStateInput::new(1, "Mode Selector".to_string(), 5);
    assert_eq!(msi.identifier.instance, 1);
    assert_eq!(msi.object_name, "Mode Selector");
    assert_eq!(msi.number_of_states, 5);
    assert_eq!(msi.present_value, 1);
    assert_eq!(msi.state_text.len(), 5);
}

#[test]
fn test_multistate_state_text() {
    let mut msi = MultiStateInput::new(1, "Mode".to_string(), 3);

    // Set custom state text
    msi.set_state_text(1, "OFF".to_string()).unwrap();
    msi.set_state_text(2, "AUTO".to_string()).unwrap();
    msi.set_state_text(3, "MANUAL".to_string()).unwrap();

    assert_eq!(msi.get_state_text(), Some("OFF"));

    msi.set_present_value(2).unwrap();
    assert_eq!(msi.get_state_text(), Some("AUTO"));

    // Test invalid state
    assert!(msi.set_present_value(4).is_err());
}

#[test]
fn test_multistate_output_priority() {
    let mut mso = MultiStateOutput::new(1, "Sequence Control".to_string(), 4);

    // Write to priority 8
    mso.write_priority(8, Some(3)).unwrap();
    assert_eq!(mso.present_value, 3);
    assert_eq!(mso.get_effective_priority(), Some(8));

    // Write to higher priority 3
    mso.write_priority(3, Some(2)).unwrap();
    assert_eq!(mso.present_value, 2);
    assert_eq!(mso.get_effective_priority(), Some(3));

    // Test invalid value
    assert!(mso.write_priority(3, Some(5)).is_err());

    // Release priority 3
    mso.write_priority(3, None).unwrap();
    assert_eq!(mso.present_value, 3); // Back to priority 8 value
}


#[test]
fn default_state_texts_are_numbered() {
    let msi = MultiStateInput::new(2, "Mode".to_string(), 3);
    assert_eq!(msi.state_text, vec!["State 1", "State 2", "State 3"]);
    assert_eq!(msi.get_state_text(), Some("State 1"));
    let big = MultiStateValue::new(1, "Big".to_string(), 12);
    assert_eq!(big.state_text[11], "State 12");
}

#[test]
fn range_errors_name_the_limit() {
    let mut msi = MultiStateInput::new(1, "Mode".to_string(), 4);
    match msi.set_present_value(0) {
        Err(ObjectError::InvalidValue(msg)) => assert_eq!(msg, "Value must be between 1 and 4"),
        _ => panic!("expected InvalidValue"),
    }
    match msi.set_state_text(5, "X".to_string()) {
        Err(ObjectError::InvalidValue(msg)) => assert_eq!(msg, "State must be between 1 and 4"),
        _ => panic!("expected InvalidValue"),
    }
    let mut mso = MultiStateOutput::new(1, "Seq".to_string(), 4);
    match mso.write_priority(0, Some(2)) {
        Err(ObjectError::InvalidValue(msg)) => assert_eq!(msg, "Priority must be 1-16"),
        _ => panic!("expected InvalidValue"),
    }
    match mso.write_priority(3, Some(0)) {
        Err(ObjectError::InvalidValue(msg)) => assert_eq!(msg, "Value must be between 1 and 4"),
        _ => panic!("expected InvalidValue"),
    }
    assert_eq!(mso.present_value, 1);
    assert_eq!(mso.get_effective_priority(), None);
}

#[test]
fn multistate_value_relinquish() {
    let mut msv = MultiStateValue::new(1, "Speed".to_string(), 3);
    msv.write_priority(10, Some(3)).unwrap();
    assert_eq!(msv.present_value, 3);
    msv.write_priority(10, None).unwrap();
    assert_eq!(msv.present_value, 1);
}
