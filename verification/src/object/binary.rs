//! Binary Input, Binary Output and Binary Value objects: two-state points,
//! the commandable ones driven through a sixteen-level priority array.

use vstd::prelude::*;

use super::analog::{EventState, Reliability};
use super::priority::{commanded, commanded_value, effective_level, effective_priority};
use super::{ObjectError, ObjectIdentifier, ObjectType};
use crate::text::chars_of;

verus! {

/// Binary values.
#[derive(Debug, Clone, Copy, PartialEq, Eq, Structural)]
pub enum BinaryPV {
    Inactive,
    Active,
}

impl BinaryPV {
    /// The enumerated value: 0 for inactive, 1 for active.
    pub fn code(self) -> (r: u32)
        ensures
            r == (if self is Active { 1u32 } else { 0u32 }),
    {
        match self {
            BinaryPV::Inactive => 0,
            BinaryPV::Active => 1,
        }
    }
}

impl From<bool> for BinaryPV {
    fn from(value: bool) -> (r: Self) {
        if value {
            BinaryPV::Active
        } else {
            BinaryPV::Inactive
        }
    }
}

impl vstd::std_specs::convert::FromSpecImpl<bool> for BinaryPV {
    open spec fn obeys_from_spec() -> bool {
        true
    }

    open spec fn from_spec(value: bool) -> BinaryPV {
        binary_of(value)
    }
}

impl From<BinaryPV> for bool {
    fn from(value: BinaryPV) -> (r: Self) {
        match value {
            BinaryPV::Active => true,
            BinaryPV::Inactive => false,
        }
    }
}

impl vstd::std_specs::convert::FromSpecImpl<BinaryPV> for bool {
    open spec fn obeys_from_spec() -> bool {
        true
    }

    open spec fn from_spec(value: BinaryPV) -> bool {
        flag_of(value)
    }
}

/// The binary value of a flag: active for `true`.
pub open spec fn binary_of(value: bool) -> BinaryPV {
    if value {
        BinaryPV::Active
    } else {
        BinaryPV::Inactive
    }
}

/// The flag of a binary value: `true` for active.
pub open spec fn flag_of(value: BinaryPV) -> bool {
    value is Active
}

/// Turning a flag into a binary value and back gives the flag, and the
/// other way round.
pub proof fn lemma_binary_pv_bool_round_trip(b: bool, v: BinaryPV)
    ensures
        flag_of(binary_of(b)) == b,
        binary_of(flag_of(v)) == v,
{
}

/// Polarity.
#[derive(Debug, Clone, Copy, PartialEq, Eq, Structural)]
pub enum Polarity {
    Normal,
    Reverse,
}

/// The status flags octet: in-alarm 0x08, fault 0x04, overridden 0x02,
/// out-of-service 0x01.
pub open spec fn status_flags_octet(in_alarm: bool, fault: bool, overridden: bool, out_of_service: bool) -> u8 {
    ((if in_alarm { 8u8 } else { 0u8 }) | (if fault { 4u8 } else { 0u8 }))
        | ((if overridden { 2u8 } else { 0u8 }) | (if out_of_service { 1u8 } else { 0u8 }))
}

/// The four status flags that an octet carries.
pub open spec fn status_flags_of(flags: u8) -> (bool, bool, bool, bool) {
    (flags & 0x08 != 0, flags & 0x04 != 0, flags & 0x02 != 0, flags & 0x01 != 0)
}

/// Setting the four status flags and reading them back gives them again.
pub proof fn lemma_status_flags_round_trip(in_alarm: bool, fault: bool, overridden: bool, out_of_service: bool)
    ensures
        status_flags_of(status_flags_octet(in_alarm, fault, overridden, out_of_service))
            == (in_alarm, fault, overridden, out_of_service),
{
    let f = status_flags_octet(in_alarm, fault, overridden, out_of_service);
    assert((f & 0x08 != 0) == in_alarm && (f & 0x04 != 0) == fault && (f & 0x02 != 0) == overridden
        && (f & 0x01 != 0) == out_of_service) by (bit_vector)
        requires
            f == ((if in_alarm { 8u8 } else { 0u8 }) | (if fault { 4u8 } else { 0u8 }))
                | ((if overridden { 2u8 } else { 0u8 }) | (if out_of_service { 1u8 } else { 0u8 })),
    ;
}

/// Reads the four status flags of an octet.
pub fn status_flags_get(flags: u8) -> (r: (bool, bool, bool, bool))
    ensures
        r == status_flags_of(flags),
{
    ((flags & 0x08) != 0, (flags & 0x04) != 0, (flags & 0x02) != 0, (flags & 0x01) != 0)
}

/// The status flags octet of four flags.
pub fn status_flags_set(in_alarm: bool, fault: bool, overridden: bool, out_of_service: bool) -> (r: u8)
    ensures
        r == status_flags_octet(in_alarm, fault, overridden, out_of_service),
{
    let alarm_bit: u8 = if in_alarm { 0x08 } else { 0 };
    let fault_bit: u8 = if fault { 0x04 } else { 0 };
    let overridden_bit: u8 = if overridden { 0x02 } else { 0 };
    let out_of_service_bit: u8 = if out_of_service { 0x01 } else { 0 };
    (alarm_bit | fault_bit) | (overridden_bit | out_of_service_bit)
}

/// The error for a priority level outside 1-16.
pub open spec fn priority_range_error(r: Result<(), ObjectError>) -> bool {
    r matches Err(ObjectError::InvalidValue(m)) && m@ == "Priority must be 1-16"@
}

/// Binary Input object.
#[derive(Debug, Clone)]
pub struct BinaryInput {
    pub identifier: ObjectIdentifier,
    pub object_name: String,
    pub present_value: BinaryPV,
    pub description: String,
    pub device_type: String,
    /// Status flags (4 bits: in_alarm, fault, overridden, out_of_service)
    pub status_flags: u8,
    pub event_state: EventState,
    pub reliability: Reliability,
    pub out_of_service: bool,
    pub polarity: Polarity,
    pub inactive_text: String,
    pub active_text: String,
    pub change_of_state_time: Option<super::Time>,
    pub change_of_state_count: u32,
    pub time_of_state_count_reset: Option<super::Time>,
}

/// Binary Output object.
#[derive(Debug, Clone)]
pub struct BinaryOutput {
    pub identifier: ObjectIdentifier,
    pub object_name: String,
    pub present_value: BinaryPV,
    pub description: String,
    pub device_type: String,
    pub status_flags: u8,
    pub event_state: EventState,
    pub reliability: Reliability,
    pub out_of_service: bool,
    pub polarity: Polarity,
    pub inactive_text: String,
    pub active_text: String,
    /// Priority array (16 levels)
    pub priority_array: [Option<BinaryPV>; 16],
    pub relinquish_default: BinaryPV,
    pub minimum_off_time: u32,
    pub minimum_on_time: u32,
}

/// Binary Value object.
#[derive(Debug, Clone)]
pub struct BinaryValue {
    pub identifier: ObjectIdentifier,
    pub object_name: String,
    pub present_value: BinaryPV,
    pub description: String,
    pub status_flags: u8,
    pub event_state: EventState,
    pub reliability: Reliability,
    pub out_of_service: bool,
    pub inactive_text: String,
    pub active_text: String,
    /// Priority array (16 levels)
    pub priority_array: [Option<BinaryPV>; 16],
    pub relinquish_default: BinaryPV,
}

impl BinaryInput {
    /// Creates a Binary Input: inactive, normal, no fault, counts at zero.
    pub fn new(instance: u32, object_name: String) -> (r: Self)
        ensures
            r.identifier == (ObjectIdentifier { object_type: ObjectType::BinaryInput, instance }),
            r.object_name@ == object_name@,
            r.present_value == BinaryPV::Inactive,
            r.description@ == Seq::<char>::empty(),
            r.device_type@ == Seq::<char>::empty(),
            r.status_flags == 0,
            r.event_state == EventState::Normal,
            r.reliability == Reliability::NoFaultDetected,
            !r.out_of_service,
            r.polarity == Polarity::Normal,
            r.inactive_text@ == "INACTIVE"@,
            r.active_text@ == "ACTIVE"@,
            r.change_of_state_time is None,
            r.change_of_state_count == 0,
            r.time_of_state_count_reset is None,
    {
        BinaryInput {
            identifier: ObjectIdentifier::new(ObjectType::BinaryInput, instance),
            object_name,
            present_value: BinaryPV::Inactive,
            description: String::new(),
            device_type: String::new(),
            status_flags: 0,
            event_state: EventState::Normal,
            reliability: Reliability::NoFaultDetected,
            out_of_service: false,
            polarity: Polarity::Normal,
            inactive_text: chars_of("INACTIVE"),
            active_text: chars_of("ACTIVE"),
            change_of_state_time: None,
            change_of_state_count: 0,
            time_of_state_count_reset: None,
        }
    }

    /// Sets the present value; a change of state is counted.
    pub fn set_present_value(&mut self, value: BinaryPV)
        requires
            value != old(self).present_value ==> old(self).change_of_state_count < u32::MAX,
        ensures
            final(self).present_value == value,
            final(self).change_of_state_count == old(self).change_of_state_count
                + (if value != old(self).present_value { 1int } else { 0int }),
            final(self).identifier == old(self).identifier,
            final(self).status_flags == old(self).status_flags,
            final(self).out_of_service == old(self).out_of_service,
    {
        if value != self.present_value {
            self.present_value = value;
            self.change_of_state_count = self.change_of_state_count + 1;
        }
    }

    /// The status flags: (in_alarm, fault, overridden, out_of_service).
    pub fn get_status_flags(&self) -> (r: (bool, bool, bool, bool))
        ensures
            r == status_flags_of(self.status_flags),
    {
        status_flags_get(self.status_flags)
    }

    /// Sets the status flags from four flags.
    pub fn set_status_flags(&mut self, in_alarm: bool, fault: bool, overridden: bool, out_of_service: bool)
        ensures
            final(self).status_flags == status_flags_octet(in_alarm, fault, overridden, out_of_service),
            final(self).present_value == old(self).present_value,
            final(self).out_of_service == old(self).out_of_service,
            final(self).change_of_state_count == old(self).change_of_state_count,
    {
        self.status_flags = status_flags_set(in_alarm, fault, overridden, out_of_service);
    }
}

impl BinaryOutput {
    /// Creates a Binary Output: every priority empty, inactive.
    pub fn new(instance: u32, object_name: String) -> (r: Self)
        ensures
            r.identifier == (ObjectIdentifier { object_type: ObjectType::BinaryOutput, instance }),
            r.object_name@ == object_name@,
            r.present_value == BinaryPV::Inactive,
            r.description@ == Seq::<char>::empty(),
            r.device_type@ == Seq::<char>::empty(),
            r.status_flags == 0,
            r.event_state == EventState::Normal,
            r.reliability == Reliability::NoFaultDetected,
            !r.out_of_service,
            r.polarity == Polarity::Normal,
            r.inactive_text@ == "INACTIVE"@,
            r.active_text@ == "ACTIVE"@,
            r.priority_array@ == Seq::new(16, |i: int| None::<BinaryPV>),
            r.relinquish_default == BinaryPV::Inactive,
            r.minimum_off_time == 0,
            r.minimum_on_time == 0,
    {
        let r = BinaryOutput {
            identifier: ObjectIdentifier::new(ObjectType::BinaryOutput, instance),
            object_name,
            present_value: BinaryPV::Inactive,
            description: String::new(),
            device_type: String::new(),
            status_flags: 0,
            event_state: EventState::Normal,
            reliability: Reliability::NoFaultDetected,
            out_of_service: false,
            polarity: Polarity::Normal,
            inactive_text: chars_of("INACTIVE"),
            active_text: chars_of("ACTIVE"),
            priority_array: [None; 16],
            relinquish_default: BinaryPV::Inactive,
            minimum_off_time: 0,
            minimum_on_time: 0,
        };
        assert(r.priority_array@ =~= Seq::new(16, |i: int| None::<BinaryPV>));
        r
    }

    /// Writes a priority level (1-16), or relinquishes it with `None`; the
    /// present value becomes the value of the highest non-empty level, or
    /// the relinquish default.
    pub fn write_priority(&mut self, priority: u8, value: Option<BinaryPV>) -> (r: Result<(), ObjectError>)
        ensures
            (1 <= priority <= 16) <==> r is Ok,
            r is Ok ==> final(self).priority_array@ == old(self).priority_array@.update(priority - 1, value),
            r is Ok ==> final(self).present_value == commanded_value(final(self).priority_array@, final(self).relinquish_default),
            r is Err ==> priority_range_error(r) && *final(self) == *old(self),
            final(self).relinquish_default == old(self).relinquish_default,
            final(self).identifier == old(self).identifier,
            final(self).out_of_service == old(self).out_of_service,
            final(self).object_name == old(self).object_name,
    {
        if priority < 1 || priority > 16 {
            return Err(ObjectError::InvalidValue(chars_of("Priority must be 1-16")));
        }
        self.priority_array[(priority - 1) as usize] = value;
        self.present_value = commanded(&self.priority_array, self.relinquish_default);
        Ok(())
    }

    /// The priority level (1-16) of the value in force, if any.
    pub fn get_effective_priority(&self) -> (r: Option<u8>)
        ensures
            r == effective_priority(self.priority_array@),
    {
        effective_level(&self.priority_array)
    }
}

impl BinaryValue {
    /// Creates a Binary Value: every priority empty, inactive.
    pub fn new(instance: u32, object_name: String) -> (r: Self)
        ensures
            r.identifier == (ObjectIdentifier { object_type: ObjectType::BinaryValue, instance }),
            r.object_name@ == object_name@,
            r.present_value == BinaryPV::Inactive,
            r.description@ == Seq::<char>::empty(),
            r.status_flags == 0,
            r.event_state == EventState::Normal,
            r.reliability == Reliability::NoFaultDetected,
            !r.out_of_service,
            r.inactive_text@ == "INACTIVE"@,
            r.active_text@ == "ACTIVE"@,
            r.priority_array@ == Seq::new(16, |i: int| None::<BinaryPV>),
            r.relinquish_default == BinaryPV::Inactive,
    {
        let r = BinaryValue {
            identifier: ObjectIdentifier::new(ObjectType::BinaryValue, instance),
            object_name,
            present_value: BinaryPV::Inactive,
            description: String::new(),
            status_flags: 0,
            event_state: EventState::Normal,
            reliability: Reliability::NoFaultDetected,
            out_of_service: false,
            inactive_text: chars_of("INACTIVE"),
            active_text: chars_of("ACTIVE"),
            priority_array: [None; 16],
            relinquish_default: BinaryPV::Inactive,
        };
        assert(r.priority_array@ =~= Seq::new(16, |i: int| None::<BinaryPV>));
        r
    }

    /// Writes a priority level (1-16), or relinquishes it with `None`; the
    /// present value becomes the value of the highest non-empty level, or
    /// the relinquish default.
    pub fn write_priority(&mut self, priority: u8, value: Option<BinaryPV>) -> (r: Result<(), ObjectError>)
        ensures
            (1 <= priority <= 16) <==> r is Ok,
            r is Ok ==> final(self).priority_array@ == old(self).priority_array@.update(priority - 1, value),
            r is Ok ==> final(self).present_value == commanded_value(final(self).priority_array@, final(self).relinquish_default),
            r is Err ==> priority_range_error(r) && *final(self) == *old(self),
            final(self).relinquish_default == old(self).relinquish_default,
            final(self).identifier == old(self).identifier,
            final(self).out_of_service == old(self).out_of_service,
            final(self).object_name == old(self).object_name,
    {
        if priority < 1 || priority > 16 {
            return Err(ObjectError::InvalidValue(chars_of("Priority must be 1-16")));
        }
        self.priority_array[(priority - 1) as usize] = value;
        self.present_value = commanded(&self.priority_array, self.relinquish_default);
        Ok(())
    }
}

} // verus!
