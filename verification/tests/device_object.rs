//! The Device object's registry of object types and its dispatch.

use bacnet_rs::client::PropertyIdentifier;
use bacnet_rs::object::device::{access_refusal, sum_counts};
use bacnet_rs::object::{DeviceObject, ObjectError, ObjectFunctions, ObjectHandlers, ObjectIdentifier, ObjectType};

#[derive(Debug, Clone, Copy, PartialEq)]
enum PropertyValue {
    Real(f32),
}

/// A table of plain functions, as an application registers them.
#[derive(Clone)]
struct FnTable {
    count: fn() -> usize,
    index_to_instance: fn(usize) -> Option<u32>,
    valid_instance: fn(u32) -> bool,
    object_name: fn(u32) -> Option<String>,
    read_property: fn(u32, PropertyIdentifier) -> Result<PropertyValue, ObjectError>,
    write_property: fn(u32, PropertyIdentifier, PropertyValue) -> Result<(), ObjectError>,
    is_property_writable: fn(u32, PropertyIdentifier) -> bool,
    property_list: fn(u32) -> Vec<PropertyIdentifier>,
}

impl ObjectHandlers for FnTable {
    type Property = PropertyIdentifier;
    type Value = PropertyValue;

    fn count(&self) -> usize {
        (self.count)()
    }

    fn index_to_instance(&self, index: usize) -> Option<u32> {
        (self.index_to_instance)(index)
    }

    fn valid_instance(&self, instance: u32) -> bool {
        (self.valid_instance)(instance)
    }

    fn object_name(&self, instance: u32) -> Option<String> {
        (self.object_name)(instance)
    }

    fn read_property(&self, instance: u32, property: PropertyIdentifier) -> Result<PropertyValue, ObjectError> {
        (self.read_property)(instance, property)
    }

    fn write_property(&self, instance: u32, property: PropertyIdentifier, value: PropertyValue) -> Result<(), ObjectError> {
        (self.write_property)(instance, property, value)
    }

    fn is_property_writable(&self, instance: u32, property: PropertyIdentifier) -> bool {
        (self.is_property_writable)(instance, property)
    }

    fn property_list(&self, instance: u32) -> Vec<PropertyIdentifier> {
        (self.property_list)(instance)
    }
}

fn mock_count() -> usize {
    2
}

fn mock_index_to_instance(index: usize) -> Option<u32> {
    match index {
        0 => Some(1),
        1 => Some(2),
        _ => None,
    }
}

fn mock_valid_instance(instance: u32) -> bool {
    instance == 1 || instance == 2
}

fn mock_object_name(instance: u32) -> Option<String> {
    if mock_valid_instance(instance) {
        Some(format!("Test Object {}", instance))
    } else {
        None
    }
}

fn mock_read_property(_instance: u32, property: PropertyIdentifier) -> Result<PropertyValue, ObjectError> {
    match property {
        PropertyIdentifier::PresentValue => Ok(PropertyValue::Real(42.0)),
        _ => Err(ObjectError::UnknownProperty),
    }
}

fn mock_write_property(_instance: u32, _property: PropertyIdentifier, _value: PropertyValue) -> Result<(), ObjectError> {
    Ok(())
}

fn mock_is_writable(_instance: u32, property: PropertyIdentifier) -> bool {
    property == PropertyIdentifier::PresentValue
}

fn mock_property_list(_instance: u32) -> Vec<PropertyIdentifier> {
    vec![PropertyIdentifier::PresentValue]
}

fn mock_functions(object_type: ObjectType) -> ObjectFunctions<FnTable> {
    ObjectFunctions {
        object_type,
        handlers: FnTable {
            count: mock_count,
            index_to_instance: mock_index_to_instance,
            valid_instance: mock_valid_instance,
            object_name: mock_object_name,
            read_property: mock_read_property,
            write_property: mock_write_property,
            is_property_writable: mock_is_writable,
            property_list: mock_property_list,
        },
    }
}

#[test]
fn test_device_object_creation() {
    let device: DeviceObject<FnTable> = DeviceObject::new(123, "Test Device".to_string());
    assert_eq!(device.device_instance(), 123);
    assert_eq!(device.device_name(), "Test Device");
    assert_eq!(device.total_object_count(), 0);
}

#[test]
fn test_register_object_functions() {
    let mut device = DeviceObject::new(123, "Test Device".to_string());
    device.register_object_functions(mock_functions(ObjectType::AnalogInput));
    assert_eq!(device.total_object_count(), 2);
    assert!(device.find_object_functions(ObjectType::AnalogInput).is_some());
}

#[test]
fn test_find_object_functions() {
    let mut device = DeviceObject::new(123, "Test Device".to_string());
    device.register_object_functions(mock_functions(ObjectType::AnalogInput));
    assert!(device.find_object_functions(ObjectType::AnalogInput).is_some());
    assert!(device.find_object_functions(ObjectType::AnalogOutput).is_none());
}

#[test]
fn test_read_object_property() {
    let mut device = DeviceObject::new(123, "Test Device".to_string());
    device.register_object_functions(mock_functions(ObjectType::AnalogInput));
    let object_id = ObjectIdentifier::new(ObjectType::AnalogInput, 1);
    let result = device.read_object_property(object_id, PropertyIdentifier::PresentValue);
    assert!(result.is_ok());
    if let Ok(PropertyValue::Real(val)) = result {
        assert_eq!(val, 42.0);
    } else {
        panic!("Expected Real property value");
    }
}

#[test]
fn device_object_defaults() {
    let device: DeviceObject<FnTable> = DeviceObject::new(4194302, "Plant".to_string());
    assert_eq!(device.device_identifier(), "Device-4194302");
    assert_eq!(device.vendor_name, "Unknown");
    assert_eq!(device.model_name, "BACnet-RS Device");
    assert_eq!(device.firmware_revision, "1.0");
    assert_eq!(device.application_software_version(), "1.0");
    assert_eq!(device.protocol_version(), 1);
    assert_eq!(device.protocol_revision(), 30);
    assert_eq!(device.vendor_identifier, 0);
    assert!(device.device_description.is_empty());
}

#[test]
fn registering_a_type_again_replaces_it() {
    let mut device = DeviceObject::new(1, "D".to_string());
    device.register_object_functions(mock_functions(ObjectType::AnalogInput));
    device.register_object_functions(mock_functions(ObjectType::BinaryInput));
    device.register_object_functions(mock_functions(ObjectType::AnalogInput));
    let types: Vec<ObjectType> = device.object_functions().iter().map(|f| f.object_type).collect();
    assert_eq!(types, vec![ObjectType::BinaryInput, ObjectType::AnalogInput]);
    assert_eq!(device.total_object_count(), 4);
}

#[test]
fn dispatch_refuses_unknown_types_instances_and_read_only_properties() {
    let mut device = DeviceObject::new(1, "D".to_string());
    device.register_object_functions(mock_functions(ObjectType::AnalogInput));
    let unknown_type = ObjectIdentifier::new(ObjectType::AnalogOutput, 1);
    assert!(matches!(
        device.read_object_property(unknown_type, PropertyIdentifier::PresentValue),
        Err(ObjectError::TypeNotSupported)
    ));
    assert!(matches!(
        device.write_object_property(unknown_type, PropertyIdentifier::PresentValue, PropertyValue::Real(1.0)),
        Err(ObjectError::TypeNotSupported)
    ));
    let unknown_instance = ObjectIdentifier::new(ObjectType::AnalogInput, 9);
    assert!(matches!(
        device.read_object_property(unknown_instance, PropertyIdentifier::PresentValue),
        Err(ObjectError::InstanceNotFound)
    ));
    let known = ObjectIdentifier::new(ObjectType::AnalogInput, 2);
    assert!(matches!(
        device.write_object_property(known, PropertyIdentifier::Description, PropertyValue::Real(1.0)),
        Err(ObjectError::PropertyNotWritable)
    ));
    assert!(device.write_object_property(known, PropertyIdentifier::PresentValue, PropertyValue::Real(1.0)).is_ok());
    assert!(matches!(
        device.read_object_property(known, PropertyIdentifier::Units),
        Err(ObjectError::UnknownProperty)
    ));
}

#[test]
fn device_object_setters() {
    let mut device: DeviceObject<FnTable> = DeviceObject::new(7, "D".to_string());
    device.set_device_description("Boiler room".to_string());
    device.set_vendor_info(42, "Acme".to_string());
    device.set_model_info("M1".to_string(), "2.3".to_string());
    assert_eq!(device.device_description, "Boiler room");
    assert_eq!(device.vendor_identifier, 42);
    assert_eq!(device.vendor_name, "Acme");
    assert_eq!(device.model_name, "M1");
    assert_eq!(device.firmware_revision, "2.3");
}

#[test]
fn access_refusals_and_saturated_counts() {
    assert!(matches!(access_refusal(false, None), Some(ObjectError::InstanceNotFound)));
    assert!(matches!(access_refusal(false, Some(true)), Some(ObjectError::InstanceNotFound)));
    assert!(matches!(access_refusal(true, Some(false)), Some(ObjectError::PropertyNotWritable)));
    assert!(access_refusal(true, Some(true)).is_none());
    assert!(access_refusal(true, None).is_none());
    assert_eq!(sum_counts(&[]), 0);
    assert_eq!(sum_counts(&[2, 3, 4]), 9);
    assert_eq!(sum_counts(&[usize::MAX - 1, 5, 1]), usize::MAX);
}
