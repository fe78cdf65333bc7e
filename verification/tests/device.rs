//! The Device object and its services bit field.

use bacnet_rs::object::{Device, ObjectError, ObjectType, ProtocolServicesSupported};


#[test]
fn test_device_creation() {
    let device = Device::new(123, "Test Device".to_string());
    assert_eq!(device.identifier.instance, 123);
    assert_eq!(device.object_name, "Test Device");
    assert_eq!(device.object_type, ObjectType::Device);
}

#[test]
fn test_protocol_services_supported() {
    let mut services = ProtocolServicesSupported::default();

    // Set some services as supported
    services.set_service(0, true); // Acknowledge-Alarm
    services.set_service(12, true); // Read-Property
    services.set_service(15, true); // Write-Property

    assert!(services.is_service_supported(0));
    assert!(services.is_service_supported(12));
    assert!(services.is_service_supported(15));
    assert!(!services.is_service_supported(1));
    assert!(!services.is_service_supported(13));
}

#[test]
fn device_defaults_and_supported_types() {
    let mut device = Device::new(99, "Dev".to_string());
    assert_eq!(device.vendor_name, "BACnet-RS");
    assert_eq!(device.vendor_identifier, 999);
    assert_eq!(device.protocol_revision, 22);
    assert_eq!(device.max_apdu_length_accepted, 1476);
    assert_eq!(device.object_types_supported, vec![ObjectType::Device]);
    device.add_supported_object_type(ObjectType::AnalogInput);
    device.add_supported_object_type(ObjectType::Device);
    device.add_supported_object_type(ObjectType::AnalogInput);
    assert_eq!(device.object_types_supported, vec![ObjectType::Device, ObjectType::AnalogInput]);
    device.set_vendor_name("Acme".to_string());
    assert_eq!(device.vendor_name, "Acme");
    assert_eq!(device.vendor_identifier, 999);
}

#[test]
fn services_can_be_cleared_and_ignore_large_numbers() {
    let mut services = ProtocolServicesSupported::default();
    services.set_service(39, true);
    services.set_service(7, true);
    assert_eq!(services.bits, [0x80, 0, 0, 0, 0x80]);
    services.set_service(7, false);
    assert!(!services.is_service_supported(7));
    assert!(services.is_service_supported(39));
    services.set_service(40, true);
    assert!(!services.is_service_supported(40));
    assert_eq!(services.bits, [0, 0, 0, 0, 0x80]);
}

#[test]
fn object_error_texts() {
    assert_eq!(ObjectError::WriteAccessDenied.to_string(), "Write access denied");
    assert_eq!(ObjectError::InvalidValue("x".to_string()).to_string(), "Invalid value: x");
    assert_eq!(ObjectError::UnknownProperty.to_string(), "Unknown property");
}
