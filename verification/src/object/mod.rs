//! BACnet object types, identifiers and the Device object.

use vstd::prelude::*;


use crate::encoding::EncodingError;
use crate::text::{chars_of, concat};

pub mod analog;
pub mod binary;
pub mod device;
pub mod engineering_units;
pub mod file;
pub mod multistate;
pub mod priority;

pub use analog::{EventState, Reliability};
pub use device::{DeviceObject, ObjectFunctions, ObjectHandlers};
pub use binary::{BinaryInput, BinaryOutput, BinaryPV, BinaryValue, Polarity};
pub use engineering_units::EngineeringUnits;
pub use file::{File, FileAccessMethod};
pub use multistate::{MultiStateInput, MultiStateOutput, MultiStateValue};

verus! {

/// Errors that can occur with object operations.
#[derive(Debug)]
pub enum ObjectError {
    /// Object not found
    NotFound,
    /// Object instance not found
    InstanceNotFound,
    /// Object type not supported
    TypeNotSupported,
    /// Property not found
    PropertyNotFound,
    /// Unknown property
    UnknownProperty,
    /// Property not writable
    PropertyNotWritable,
    /// Invalid property type
    InvalidPropertyType,
    /// Invalid property value
    InvalidValue(String),
    /// Write access denied
    WriteAccessDenied,
    /// Invalid object configuration
    InvalidConfiguration(String),
}

/// BACnet object types. The standard types are listed in the order of
/// their numbers (0-30); `Proprietary` carries any other 10-bit type number.
#[derive(Debug, Clone, Copy, PartialEq, Eq, Hash, Structural)]
pub enum ObjectType {
    AnalogInput,
    AnalogOutput,
    AnalogValue,
    BinaryInput,
    BinaryOutput,
    BinaryValue,
    Calendar,
    Command,
    Device,
    EventEnrollment,
    File,
    Group,
    Loop,
    MultiStateInput,
    MultiStateOutput,
    NotificationClass,
    Program,
    Schedule,
    Averaging,
    MultiStateValue,
    TrendLog,
    LifeSafetyPoint,
    LifeSafetyZone,
    Accumulator,
    PulseConverter,
    EventLog,
    GlobalGroup,
    TrendLogMultiple,
    LoadControl,
    StructuredView,
    AccessDoor,
    Proprietary(u16),
}

/// The number of an object type.
pub open spec fn object_type_code(t: ObjectType) -> u16 {
    match t {
        ObjectType::AnalogInput => 0,
        ObjectType::AnalogOutput => 1,
        ObjectType::AnalogValue => 2,
        ObjectType::BinaryInput => 3,
        ObjectType::BinaryOutput => 4,
        ObjectType::BinaryValue => 5,
        ObjectType::Calendar => 6,
        ObjectType::Command => 7,
        ObjectType::Device => 8,
        ObjectType::EventEnrollment => 9,
        ObjectType::File => 10,
        ObjectType::Group => 11,
        ObjectType::Loop => 12,
        ObjectType::MultiStateInput => 13,
        ObjectType::MultiStateOutput => 14,
        ObjectType::NotificationClass => 15,
        ObjectType::Program => 16,
        ObjectType::Schedule => 17,
        ObjectType::Averaging => 18,
        ObjectType::MultiStateValue => 19,
        ObjectType::TrendLog => 20,
        ObjectType::LifeSafetyPoint => 21,
        ObjectType::LifeSafetyZone => 22,
        ObjectType::Accumulator => 23,
        ObjectType::PulseConverter => 24,
        ObjectType::EventLog => 25,
        ObjectType::GlobalGroup => 26,
        ObjectType::TrendLogMultiple => 27,
        ObjectType::LoadControl => 28,
        ObjectType::StructuredView => 29,
        ObjectType::AccessDoor => 30,
        ObjectType::Proprietary(n) => n,
    }
}

/// The object type with number `code` (a standard type for 0-30).
pub open spec fn object_type_of(code: u16) -> ObjectType {
    if code <= 30 {
        choose|t: ObjectType| !(t is Proprietary) && object_type_code(t) == code
    } else {
        ObjectType::Proprietary(code)
    }
}

/// The object types carry the numbers that the BACnet standard gives
/// them (Clause 21, BACnetObjectType): Analog Input 0, ..., Device 8, ...,
/// Notification Class 15, ..., Trend Log 20, ..., Access Door 30; a
/// proprietary type is its own number. Reading a number back gives the
/// type with that number.
pub proof fn lemma_object_type_numbers(n: u16)
    ensures
        object_type_code(ObjectType::AnalogInput) == 0,
        object_type_code(ObjectType::AnalogOutput) == 1,
        object_type_code(ObjectType::AnalogValue) == 2,
        object_type_code(ObjectType::BinaryInput) == 3,
        object_type_code(ObjectType::BinaryOutput) == 4,
        object_type_code(ObjectType::BinaryValue) == 5,
        object_type_code(ObjectType::Calendar) == 6,
        object_type_code(ObjectType::Command) == 7,
        object_type_code(ObjectType::Device) == 8,
        object_type_code(ObjectType::EventEnrollment) == 9,
        object_type_code(ObjectType::File) == 10,
        object_type_code(ObjectType::Group) == 11,
        object_type_code(ObjectType::Loop) == 12,
        object_type_code(ObjectType::MultiStateInput) == 13,
        object_type_code(ObjectType::MultiStateOutput) == 14,
        object_type_code(ObjectType::NotificationClass) == 15,
        object_type_code(ObjectType::Program) == 16,
        object_type_code(ObjectType::Schedule) == 17,
        object_type_code(ObjectType::Averaging) == 18,
        object_type_code(ObjectType::MultiStateValue) == 19,
        object_type_code(ObjectType::TrendLog) == 20,
        object_type_code(ObjectType::LifeSafetyPoint) == 21,
        object_type_code(ObjectType::LifeSafetyZone) == 22,
        object_type_code(ObjectType::Accumulator) == 23,
        object_type_code(ObjectType::PulseConverter) == 24,
        object_type_code(ObjectType::EventLog) == 25,
        object_type_code(ObjectType::GlobalGroup) == 26,
        object_type_code(ObjectType::TrendLogMultiple) == 27,
        object_type_code(ObjectType::LoadControl) == 28,
        object_type_code(ObjectType::StructuredView) == 29,
        object_type_code(ObjectType::AccessDoor) == 30,
        object_type_code(ObjectType::Proprietary(n)) == n,
        n <= 30 ==> object_type_code(object_type_of(n)) == n && !(object_type_of(n) is Proprietary),
        n > 30 ==> object_type_of(n) == ObjectType::Proprietary(n),
{
    if n <= 30 {
        if n == 0 {
            assert(object_type_code(ObjectType::AnalogInput) == n);
        }         else if n == 1 {
            assert(object_type_code(ObjectType::AnalogOutput) == n);
        }         else if n == 2 {
            assert(object_type_code(ObjectType::AnalogValue) == n);
        }         else if n == 3 {
            assert(object_type_code(ObjectType::BinaryInput) == n);
        }         else if n == 4 {
            assert(object_type_code(ObjectType::BinaryOutput) == n);
        }         else if n == 5 {
            assert(object_type_code(ObjectType::BinaryValue) == n);
        }         else if n == 6 {
            assert(object_type_code(ObjectType::Calendar) == n);
        }         else if n == 7 {
            assert(object_type_code(ObjectType::Command) == n);
        }         else if n == 8 {
            assert(object_type_code(ObjectType::Device) == n);
        }         else if n == 9 {
            assert(object_type_code(ObjectType::EventEnrollment) == n);
        }         else if n == 10 {
            assert(object_type_code(ObjectType::File) == n);
        }         else if n == 11 {
            assert(object_type_code(ObjectType::Group) == n);
        }         else if n == 12 {
            assert(object_type_code(ObjectType::Loop) == n);
        }         else if n == 13 {
            assert(object_type_code(ObjectType::MultiStateInput) == n);
        }         else if n == 14 {
            assert(object_type_code(ObjectType::MultiStateOutput) == n);
        }         else if n == 15 {
            assert(object_type_code(ObjectType::NotificationClass) == n);
        }         else if n == 16 {
            assert(object_type_code(ObjectType::Program) == n);
        }         else if n == 17 {
            assert(object_type_code(ObjectType::Schedule) == n);
        }         else if n == 18 {
            assert(object_type_code(ObjectType::Averaging) == n);
        }         else if n == 19 {
            assert(object_type_code(ObjectType::MultiStateValue) == n);
        }         else if n == 20 {
            assert(object_type_code(ObjectType::TrendLog) == n);
        }         else if n == 21 {
            assert(object_type_code(ObjectType::LifeSafetyPoint) == n);
        }         else if n == 22 {
            assert(object_type_code(ObjectType::LifeSafetyZone) == n);
        }         else if n == 23 {
            assert(object_type_code(ObjectType::Accumulator) == n);
        }         else if n == 24 {
            assert(object_type_code(ObjectType::PulseConverter) == n);
        }         else if n == 25 {
            assert(object_type_code(ObjectType::EventLog) == n);
        }         else if n == 26 {
            assert(object_type_code(ObjectType::GlobalGroup) == n);
        }         else if n == 27 {
            assert(object_type_code(ObjectType::TrendLogMultiple) == n);
        }         else if n == 28 {
            assert(object_type_code(ObjectType::LoadControl) == n);
        }         else if n == 29 {
            assert(object_type_code(ObjectType::StructuredView) == n);
        }         else if n == 30 {
            assert(object_type_code(ObjectType::AccessDoor) == n);
        }
    }
}

/// Whether an object type is written in its one standard form: a
/// proprietary type never reuses a standard number.
pub open spec fn object_type_canonical(t: ObjectType) -> bool {
    t matches ObjectType::Proprietary(n) ==> n > 30
}

impl ObjectType {
    /// The number of this object type.
    pub fn code(self) -> (r: u16)
        ensures
            r == object_type_code(self),
    {
        match self {
        ObjectType::AnalogInput => 0,
        ObjectType::AnalogOutput => 1,
        ObjectType::AnalogValue => 2,
        ObjectType::BinaryInput => 3,
        ObjectType::BinaryOutput => 4,
        ObjectType::BinaryValue => 5,
        ObjectType::Calendar => 6,
        ObjectType::Command => 7,
        ObjectType::Device => 8,
        ObjectType::EventEnrollment => 9,
        ObjectType::File => 10,
        ObjectType::Group => 11,
        ObjectType::Loop => 12,
        ObjectType::MultiStateInput => 13,
        ObjectType::MultiStateOutput => 14,
        ObjectType::NotificationClass => 15,
        ObjectType::Program => 16,
        ObjectType::Schedule => 17,
        ObjectType::Averaging => 18,
        ObjectType::MultiStateValue => 19,
        ObjectType::TrendLog => 20,
        ObjectType::LifeSafetyPoint => 21,
        ObjectType::LifeSafetyZone => 22,
        ObjectType::Accumulator => 23,
        ObjectType::PulseConverter => 24,
        ObjectType::EventLog => 25,
        ObjectType::GlobalGroup => 26,
        ObjectType::TrendLogMultiple => 27,
        ObjectType::LoadControl => 28,
        ObjectType::StructuredView => 29,
        ObjectType::AccessDoor => 30,
            ObjectType::Proprietary(n) => n,
        }
    }

    /// The object type with number `code`: a standard type for 0-30,
    /// otherwise a proprietary one.
    pub fn from_code(code: u16) -> (r: ObjectType)
        ensures
            object_type_code(r) == code,
            object_type_canonical(r),
            code > 30 <==> r is Proprietary,
    {
        match code {
            0 => ObjectType::AnalogInput,
            1 => ObjectType::AnalogOutput,
            2 => ObjectType::AnalogValue,
            3 => ObjectType::BinaryInput,
            4 => ObjectType::BinaryOutput,
            5 => ObjectType::BinaryValue,
            6 => ObjectType::Calendar,
            7 => ObjectType::Command,
            8 => ObjectType::Device,
            9 => ObjectType::EventEnrollment,
            10 => ObjectType::File,
            11 => ObjectType::Group,
            12 => ObjectType::Loop,
            13 => ObjectType::MultiStateInput,
            14 => ObjectType::MultiStateOutput,
            15 => ObjectType::NotificationClass,
            16 => ObjectType::Program,
            17 => ObjectType::Schedule,
            18 => ObjectType::Averaging,
            19 => ObjectType::MultiStateValue,
            20 => ObjectType::TrendLog,
            21 => ObjectType::LifeSafetyPoint,
            22 => ObjectType::LifeSafetyZone,
            23 => ObjectType::Accumulator,
            24 => ObjectType::PulseConverter,
            25 => ObjectType::EventLog,
            26 => ObjectType::GlobalGroup,
            27 => ObjectType::TrendLogMultiple,
            28 => ObjectType::LoadControl,
            29 => ObjectType::StructuredView,
            30 => ObjectType::AccessDoor,
            _ => ObjectType::Proprietary(code),
        }
    }

    /// The standard object type with number `value`; other numbers are refused.
    pub fn try_from_u16(value: u16) -> (r: Result<ObjectType, ObjectError>)
        ensures
            value <= 30 <==> r is Ok,
            r matches Ok(t) ==> object_type_code(t) == value && !(t is Proprietary),
            value > 30 ==> r matches Err(ObjectError::InvalidValue(_)),
    {
        match value {
            0 => Ok(ObjectType::AnalogInput),
            1 => Ok(ObjectType::AnalogOutput),
            2 => Ok(ObjectType::AnalogValue),
            3 => Ok(ObjectType::BinaryInput),
            4 => Ok(ObjectType::BinaryOutput),
            5 => Ok(ObjectType::BinaryValue),
            6 => Ok(ObjectType::Calendar),
            7 => Ok(ObjectType::Command),
            8 => Ok(ObjectType::Device),
            9 => Ok(ObjectType::EventEnrollment),
            10 => Ok(ObjectType::File),
            11 => Ok(ObjectType::Group),
            12 => Ok(ObjectType::Loop),
            13 => Ok(ObjectType::MultiStateInput),
            14 => Ok(ObjectType::MultiStateOutput),
            15 => Ok(ObjectType::NotificationClass),
            16 => Ok(ObjectType::Program),
            17 => Ok(ObjectType::Schedule),
            18 => Ok(ObjectType::Averaging),
            19 => Ok(ObjectType::MultiStateValue),
            20 => Ok(ObjectType::TrendLog),
            21 => Ok(ObjectType::LifeSafetyPoint),
            22 => Ok(ObjectType::LifeSafetyZone),
            23 => Ok(ObjectType::Accumulator),
            24 => Ok(ObjectType::PulseConverter),
            25 => Ok(ObjectType::EventLog),
            26 => Ok(ObjectType::GlobalGroup),
            27 => Ok(ObjectType::TrendLogMultiple),
            28 => Ok(ObjectType::LoadControl),
            29 => Ok(ObjectType::StructuredView),
            30 => Ok(ObjectType::AccessDoor),
            _ => Err(ObjectError::InvalidValue("Unknown object type".to_string())),
        }
    }
}

/// Two standard object types with the same number are the same type.
pub proof fn lemma_object_type_code_injective(a: ObjectType, b: ObjectType)
    requires
        object_type_canonical(a),
        object_type_canonical(b),
        object_type_code(a) == object_type_code(b),
    ensures
        a == b,
{
}

/// The largest instance number an object identifier can carry.
pub const MAX_INSTANCE: u32 = 0x3FFFFF;

/// The largest valid instance number: 4194303, the largest that fits,
/// stands for an unspecified instance.
pub const MAX_VALID_INSTANCE: u32 = 4194302;

/// Object identifier (type + instance number).
#[derive(Debug, Clone, Copy, PartialEq, Eq, Hash, Structural)]
pub struct ObjectIdentifier {
    pub object_type: ObjectType,
    pub instance: u32,
}

/// The packed 32-bit form of an object identifier: 10 bits of type, then
/// 22 bits of instance.
pub open spec fn object_id_packed(id: ObjectIdentifier) -> u32 {
    (object_type_code(id.object_type) as int * 4194304 + id.instance as int) as u32
}

/// Whether an object identifier fits its packed 32-bit form.
pub open spec fn object_id_packable(id: ObjectIdentifier) -> bool {
    id.instance <= MAX_INSTANCE && object_type_code(id.object_type) <= 1023
}

/// The object identifier that a packed 32-bit value holds.
pub open spec fn object_id_unpacked(v: u32) -> ObjectIdentifier {
    ObjectIdentifier { object_type: object_type_of((v / 4194304) as u16), instance: v % 4194304 }
}

impl ObjectIdentifier {
    /// Create a new object identifier.
    pub fn new(object_type: ObjectType, instance: u32) -> (r: ObjectIdentifier)
        ensures
            r == (ObjectIdentifier { object_type, instance }),
    {
        ObjectIdentifier { object_type, instance }
    }

    /// Check if the instance number is valid (0-4194302).
    pub fn is_valid(&self) -> (r: bool)
        ensures
            r <==> self.instance <= MAX_VALID_INSTANCE,
    {
        self.instance <= MAX_VALID_INSTANCE
    }

    /// Packs this identifier into its 32-bit form; an instance above
    /// 4194303 or a type number above 1023 is out of range.
    pub fn to_u32(&self) -> (r: Result<u32, EncodingError>)
        ensures
            object_id_packable(*self) <==> r is Ok,
            r matches Ok(v) ==> v == object_id_packed(*self),
            !object_id_packable(*self) ==> r matches Err(EncodingError::ValueOutOfRange),
    {
        let code = self.object_type.code();
        if self.instance > MAX_INSTANCE || code > 1023 {
            return Err(EncodingError::ValueOutOfRange);
        }
        Ok((code as u32) * 4194304 + self.instance)
    }

    /// Unpacks a 32-bit object identifier.
    pub fn from_u32(value: u32) -> (r: ObjectIdentifier)
        ensures
            object_type_code(r.object_type) == value / 4194304,
            r.instance == value % 4194304,
            object_type_canonical(r.object_type),
            r == object_id_unpacked(value),
    {
        let t = ObjectType::from_code((value / 4194304) as u16);
        proof {
            let c = (value / 4194304) as u16;
            if c <= 30 {
                assert(!(t is Proprietary) && object_type_code(t) == c);
                let u = object_type_of(c);
                assert(!(u is Proprietary) && object_type_code(u) == c);
                lemma_object_type_code_injective(t, u);
            }
        }
        ObjectIdentifier { object_type: t, instance: value % 4194304 }
    }
}

impl From<u32> for ObjectIdentifier {
    /// Unpacks a 32-bit object identifier.
    fn from(value: u32) -> (r: Self) {
        ObjectIdentifier::from_u32(value)
    }
}

impl vstd::std_specs::convert::FromSpecImpl<u32> for ObjectIdentifier {
    open spec fn obeys_from_spec() -> bool {
        true
    }

    open spec fn from_spec(value: u32) -> ObjectIdentifier {
        object_id_unpacked(value)
    }
}

impl TryFrom<ObjectIdentifier> for u32 {
    type Error = EncodingError;

    /// Packs an object identifier; `ValueOutOfRange` where it does not fit.
    fn try_from(id: ObjectIdentifier) -> (r: Result<u32, EncodingError>) {
        id.to_u32()
    }
}

/// The packed form of an identifier, or `ValueOutOfRange`.
pub open spec fn object_id_try_packed(id: ObjectIdentifier) -> Result<u32, EncodingError> {
    if object_id_packable(id) {
        Ok(object_id_packed(id))
    } else {
        Err(EncodingError::ValueOutOfRange)
    }
}

impl vstd::std_specs::convert::TryFromSpecImpl<ObjectIdentifier> for u32 {
    open spec fn obeys_try_from_spec() -> bool {
        true
    }

    open spec fn try_from_spec(id: ObjectIdentifier) -> Result<u32, EncodingError> {
        object_id_try_packed(id)
    }
}

/// Unpacking the packed form of an identifier gives the identifier back.
pub proof fn lemma_object_id_round_trip(id: ObjectIdentifier)
    requires
        object_id_packable(id),
        object_type_canonical(id.object_type),
    ensures
        object_id_unpacked(object_id_packed(id)) == id,
{
    let v = object_id_packed(id);
    let c = object_type_code(id.object_type);
    assert(v / 4194304 == c);
    assert(v % 4194304 == id.instance);
    if c <= 30 {
        let u = object_type_of(c);
        assert(!(id.object_type is Proprietary));
        assert(!(u is Proprietary) && object_type_code(u) == c);
        lemma_object_type_code_injective(id.object_type, u);
    }
}

/// BACnet date representation.
#[derive(Debug, Clone, Copy, PartialEq, Eq, Structural)]
pub struct Date {
    /// 1900-2154, 255 = unspecified
    pub year: u16,
    /// 1-12, 13 = odd months, 14 = even months, 255 = unspecified
    pub month: u8,
    /// 1-31, 32 = last day of month, 255 = unspecified
    pub day: u8,
    /// 1-7 (Mon-Sun), 255 = unspecified
    pub weekday: u8,
}

/// BACnet time representation.
#[derive(Debug, Clone, Copy, PartialEq, Eq, Structural)]
pub struct Time {
    /// 0-23, 255 = unspecified
    pub hour: u8,
    /// 0-59, 255 = unspecified
    pub minute: u8,
    /// 0-59, 255 = unspecified
    pub second: u8,
    /// 0-99, 255 = unspecified
    pub hundredths: u8,
}


/// Device status.
#[derive(Debug, Clone, Copy, PartialEq, Eq, Structural)]
pub enum DeviceStatus {
    Operational,
    OperationalReadOnly,
    DownloadRequired,
    DownloadInProgress,
    NonOperational,
    BackupInProgress,
}

impl DeviceStatus {
    /// The enumerated value of this status (0-5).
    pub fn code(self) -> (r: u32)
        ensures
            r == match self {
                DeviceStatus::Operational => 0u32,
                DeviceStatus::OperationalReadOnly => 1,
                DeviceStatus::DownloadRequired => 2,
                DeviceStatus::DownloadInProgress => 3,
                DeviceStatus::NonOperational => 4,
                DeviceStatus::BackupInProgress => 5,
            },
    {
        match self {
            DeviceStatus::Operational => 0,
            DeviceStatus::OperationalReadOnly => 1,
            DeviceStatus::DownloadRequired => 2,
            DeviceStatus::DownloadInProgress => 3,
            DeviceStatus::NonOperational => 4,
            DeviceStatus::BackupInProgress => 5,
        }
    }
}

/// Segmentation support.
#[derive(Debug, Clone, Copy, PartialEq, Eq, Structural)]
pub enum Segmentation {
    Both,
    Transmit,
    Receive,
    NoSegmentation,
}

impl Segmentation {
    /// The enumerated value of this support (0-3).
    pub fn code(self) -> (r: u32)
        ensures
            r == match self {
                Segmentation::Both => 0u32,
                Segmentation::Transmit => 1,
                Segmentation::Receive => 2,
                Segmentation::NoSegmentation => 3,
            },
    {
        match self {
            Segmentation::Both => 0,
            Segmentation::Transmit => 1,
            Segmentation::Receive => 2,
            Segmentation::NoSegmentation => 3,
        }
    }
}

/// Whether service `service` (0-39) is marked in the bit field `bits`.
pub open spec fn service_bit(bits: Seq<u8>, service: u8) -> bool {
    service < 40 && bits[(service / 8) as int] & (1u8 << (service % 8)) != 0
}

/// Protocol services supported: one bit per service, 40 bits.
#[derive(Debug, Clone)]
pub struct ProtocolServicesSupported {
    pub bits: [u8; 5],
}

impl Default for ProtocolServicesSupported {
    fn default() -> (r: Self)
        ensures
            r.bits@ == seq![0u8, 0u8, 0u8, 0u8, 0u8],
    {
        let r = ProtocolServicesSupported { bits: [0u8; 5] };
        assert(r.bits@ =~= seq![0u8, 0u8, 0u8, 0u8, 0u8]);
        r
    }
}

impl ProtocolServicesSupported {
    /// Marks service `service` (0-39) as supported or not; other numbers
    /// are ignored.
    pub fn set_service(&mut self, service: u8, supported: bool)
        ensures
            service < 40 ==> service_bit(final(self).bits@, service) == supported,
            forall|s: u8| s != service ==> service_bit(final(self).bits@, s) == service_bit(old(self).bits@, s),
            service >= 40 ==> final(self).bits == old(self).bits,
    {
        if service < 40 {
            let byte_index = service / 8;
            let bit_index = service % 8;
            let old_byte = self.bits[byte_index as usize];
            let mask: u8 = 1u8 << bit_index;
            let new_byte = if supported { old_byte | mask } else { old_byte & !mask };
            self.bits[byte_index as usize] = new_byte;
            proof {
                assert(bit_index < 8);
                assert((new_byte & mask != 0) == supported) by (bit_vector)
                    requires
                        bit_index < 8,
                        mask == 1u8 << bit_index,
                        new_byte == (if supported { old_byte | mask } else { old_byte & !mask }),
                ;
                assert forall|s: u8| s != service implies service_bit(self.bits@, s) == service_bit(old(self).bits@, s) by {
                    if s < 40 && s / 8 == byte_index {
                        let m2: u8 = 1u8 << (s % 8);
                        let b2 = s % 8;
                        assert(b2 != bit_index);
                        assert((new_byte & m2 != 0) == (old_byte & m2 != 0)) by (bit_vector)
                            requires
                                bit_index < 8,
                                b2 < 8,
                                b2 != bit_index,
                                mask == 1u8 << bit_index,
                                m2 == 1u8 << b2,
                                new_byte == (if supported { old_byte | mask } else { old_byte & !mask }),
                        ;
                    }
                }
            }
        }
    }

    /// Whether service `service` is marked as supported (false from 40 on).
    pub fn is_service_supported(&self, service: u8) -> (r: bool)
        ensures
            r == service_bit(self.bits@, service),
    {
        if service < 40 {
            let byte_index = service / 8;
            let bit_index = service % 8;
            (self.bits[byte_index as usize] & (1u8 << bit_index)) != 0
        } else {
            false
        }
    }
}

/// Marking a service and then asking for it gives back the mark; no other
/// service changes.
pub proof fn lemma_service_set_then_get(before: Seq<u8>, after: Seq<u8>, service: u8, supported: bool, other: u8)
    requires
        service < 40,
        service_bit(after, service) == supported,
        forall|s: u8| s != service ==> service_bit(after, s) == service_bit(before, s),
    ensures
        service_bit(after, service) == supported,
        other != service ==> service_bit(after, other) == service_bit(before, other),
{
}

/// Address binding for device routing.
#[derive(Debug, Clone)]
pub struct AddressBinding {
    pub device_identifier: ObjectIdentifier,
    pub network_address: Vec<u8>,
}

/// Device object.
#[derive(Debug, Clone)]
pub struct Device {
    pub identifier: ObjectIdentifier,
    /// Object name (required property)
    pub object_name: String,
    /// Object type (always Device)
    pub object_type: ObjectType,
    pub system_status: DeviceStatus,
    pub vendor_name: String,
    pub vendor_identifier: u16,
    pub model_name: String,
    pub firmware_revision: String,
    pub application_software_version: String,
    /// Protocol version (always 1)
    pub protocol_version: u8,
    pub protocol_revision: u8,
    pub protocol_services_supported: ProtocolServicesSupported,
    pub object_types_supported: Vec<ObjectType>,
    pub max_apdu_length_accepted: u16,
    pub segmentation_supported: Segmentation,
    /// Device address binding (for routing)
    pub device_address_binding: Vec<AddressBinding>,
    pub database_revision: u32,
}

impl Device {
    /// Creates a Device object: operational, vendor 999 "BACnet-RS",
    /// protocol revision 22, 1476-octet APDUs, segmentation both ways.
    pub fn new(instance: u32, object_name: String) -> (r: Self)
        ensures
            r.identifier == (ObjectIdentifier { object_type: ObjectType::Device, instance }),
            r.object_name@ == object_name@,
            r.object_type == ObjectType::Device,
            r.system_status == DeviceStatus::Operational,
            r.vendor_name@ == "BACnet-RS"@,
            r.vendor_identifier == 999,
            r.model_name@ == "Rust BACnet Device"@,
            r.firmware_revision@ == "1.0.0"@,
            r.application_software_version@ == "0.2.1"@,
            r.protocol_version == 1,
            r.protocol_revision == 22,
            r.protocol_services_supported.bits@ == seq![0u8, 0u8, 0u8, 0u8, 0u8],
            r.object_types_supported@ == seq![ObjectType::Device],
            r.max_apdu_length_accepted == 1476,
            r.segmentation_supported == Segmentation::Both,
            r.device_address_binding@.len() == 0,
            r.database_revision == 1,
    {
        Device {
            identifier: ObjectIdentifier::new(ObjectType::Device, instance),
            object_name,
            object_type: ObjectType::Device,
            system_status: DeviceStatus::Operational,
            vendor_name: chars_of("BACnet-RS"),
            vendor_identifier: 999,
            model_name: chars_of("Rust BACnet Device"),
            firmware_revision: chars_of("1.0.0"),
            application_software_version: chars_of("0.2.1"),
            protocol_version: 1,
            protocol_revision: 22,
            protocol_services_supported: ProtocolServicesSupported::default(),
            object_types_supported: vec![ObjectType::Device],
            max_apdu_length_accepted: 1476,
            segmentation_supported: Segmentation::Both,
            device_address_binding: Vec::new(),
            database_revision: 1,
        }
    }

    /// Adds an object type to the supported list, unless it is there.
    pub fn add_supported_object_type(&mut self, object_type: ObjectType)
        ensures
            old(self).object_types_supported@.contains(object_type) ==> final(self).object_types_supported@
                == old(self).object_types_supported@,
            !old(self).object_types_supported@.contains(object_type) ==> final(self).object_types_supported@
                == old(self).object_types_supported@.push(object_type),
            *final(self) == (Device { object_types_supported: final(self).object_types_supported, ..*old(self) }),
    {
        let mut i: usize = 0;
        while i < self.object_types_supported.len()
            invariant
                i <= self.object_types_supported@.len(),
                forall|j: int| 0 <= j < i ==> self.object_types_supported@[j] != object_type,
            decreases self.object_types_supported@.len() - i,
        {
            if self.object_types_supported[i] == object_type {
                return;
            }
            i = i + 1;
        }
        self.object_types_supported.push(object_type);
    }

    /// Sets the vendor name, keeping the vendor identifier.
    pub fn set_vendor_name(&mut self, name: String)
        ensures
            *final(self) == (Device { vendor_name: name, ..*old(self) }),
    {
        self.vendor_name = name;
    }
}

/// The text of an object error.
pub open spec fn object_error_text(e: ObjectError) -> Seq<char> {
    match e {
        ObjectError::NotFound => "Object not found"@,
        ObjectError::InstanceNotFound => "Object instance not found"@,
        ObjectError::TypeNotSupported => "Object type not supported"@,
        ObjectError::PropertyNotFound => "Property not found"@,
        ObjectError::UnknownProperty => "Unknown property"@,
        ObjectError::PropertyNotWritable => "Property not writable"@,
        ObjectError::InvalidPropertyType => "Invalid property type"@,
        ObjectError::InvalidValue(msg) => "Invalid value: "@ + msg@,
        ObjectError::WriteAccessDenied => "Write access denied"@,
        ObjectError::InvalidConfiguration(msg) => "Invalid configuration: "@ + msg@,
    }
}

impl ObjectError {
    /// The text of this error.
    pub fn to_string(&self) -> (r: String)
        ensures
            r@ == object_error_text(*self),
    {
        match self {
            ObjectError::NotFound => chars_of("Object not found"),
            ObjectError::InstanceNotFound => chars_of("Object instance not found"),
            ObjectError::TypeNotSupported => chars_of("Object type not supported"),
            ObjectError::PropertyNotFound => chars_of("Property not found"),
            ObjectError::UnknownProperty => chars_of("Unknown property"),
            ObjectError::PropertyNotWritable => chars_of("Property not writable"),
            ObjectError::InvalidPropertyType => chars_of("Invalid property type"),
            ObjectError::InvalidValue(msg) => concat(chars_of("Invalid value: "), msg.as_str()),
            ObjectError::WriteAccessDenied => chars_of("Write access denied"),
            ObjectError::InvalidConfiguration(msg) => concat(chars_of("Invalid configuration: "), msg.as_str()),
        }
    }
}

} // verus!
