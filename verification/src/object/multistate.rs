//! Multi-state Input, Multi-state Output and Multi-state Value objects:
//! points with states numbered 1 to N, each with a text.

use vstd::prelude::*;

use super::analog::{EventState, Reliability};
use super::priority::{commanded, commanded_value, effective_level, effective_priority};
use super::{ObjectError, ObjectIdentifier, ObjectType};
use super::binary::priority_range_error;
use crate::text::{chars_of, concat, dec_text, push_decimal, text_of};

verus! {

/// The default text of state `i`: "State i".
pub open spec fn state_label(i: nat) -> Seq<char> {
    "State "@ + dec_text(i)
}

/// The default state texts "State 1" to "State n".
pub open spec fn default_state_texts(t: Seq<String>, n: nat) -> bool {
    &&& t.len() == n
    &&& forall|i: int| 0 <= i < n ==> (#[trigger] t[i])@ == state_label((i + 1) as nat)
}

/// The message for a value or state outside 1 to `n`.
pub open spec fn range_message(what: Seq<char>, n: u32) -> Seq<char> {
    what + " must be between 1 and "@ + dec_text(n as nat)
}

/// The error for a value or state outside 1 to `n`.
pub open spec fn range_error<T>(r: Result<T, ObjectError>, what: Seq<char>, n: u32) -> bool {
    r matches Err(ObjectError::InvalidValue(m)) && m@ == range_message(what, n)
}

/// The error value for `what` outside 1 to `n`.
fn out_of_range(what: &str, n: u32) -> (r: ObjectError)
    ensures
        r matches ObjectError::InvalidValue(m) && m@ == range_message(what@, n),
{
    let mut digits: Vec<char> = Vec::new();
    push_decimal(&mut digits, n as u64);
    let d = text_of(&digits);
    let m = concat(concat(chars_of(what), " must be between 1 and "), d.as_str());
    ObjectError::InvalidValue(m)
}

/// The default state texts "State 1" to "State n".
fn default_texts(n: u32) -> (r: Vec<String>)
    ensures
        default_state_texts(r@, n as nat),
{
    let mut texts: Vec<String> = Vec::new();
    let mut i: u32 = 0;
    while i < n
        invariant
            i <= n,
            default_state_texts(texts@, i as nat),
        decreases n - i,
    {
        let mut chars: Vec<char> = vec!['S', 't', 'a', 't', 'e', ' '];
        push_decimal(&mut chars, (i as u64) + 1);
        let label = text_of(&chars);
        proof {
            reveal_strlit("State ");
            assert(label@ =~= state_label((i + 1) as nat));
        }
        texts.push(label);
        i = i + 1;
    }
    texts
}

/// Multi-state Input object.
#[derive(Debug, Clone)]
pub struct MultiStateInput {
    pub identifier: ObjectIdentifier,
    pub object_name: String,
    /// Present value (state 1..N)
    pub present_value: u32,
    pub description: String,
    pub device_type: String,
    pub status_flags: u8,
    pub event_state: EventState,
    pub reliability: Reliability,
    pub out_of_service: bool,
    pub number_of_states: u32,
    pub state_text: Vec<String>,
}

/// Multi-state Output object.
#[derive(Debug, Clone)]
pub struct MultiStateOutput {
    pub identifier: ObjectIdentifier,
    pub object_name: String,
    /// Present value (state 1..N)
    pub present_value: u32,
    pub description: String,
    pub device_type: String,
    pub status_flags: u8,
    pub event_state: EventState,
    pub reliability: Reliability,
    pub out_of_service: bool,
    pub number_of_states: u32,
    pub state_text: Vec<String>,
    /// Priority array (16 levels)
    pub priority_array: [Option<u32>; 16],
    pub relinquish_default: u32,
}

/// Multi-state Value object.
#[derive(Debug, Clone)]
pub struct MultiStateValue {
    pub identifier: ObjectIdentifier,
    pub object_name: String,
    /// Present value (state 1..N)
    pub present_value: u32,
    pub description: String,
    pub status_flags: u8,
    pub event_state: EventState,
    pub reliability: Reliability,
    pub out_of_service: bool,
    pub number_of_states: u32,
    pub state_text: Vec<String>,
    /// Priority array (16 levels)
    pub priority_array: [Option<u32>; 16],
    pub relinquish_default: u32,
}

impl MultiStateInput {
    /// Creates a Multi-state Input in state 1, with texts "State 1" to
    /// "State n".
    pub fn new(instance: u32, object_name: String, number_of_states: u32) -> (r: Self)
        ensures
            r.identifier == (ObjectIdentifier { object_type: ObjectType::MultiStateInput, instance }),
            r.object_name@ == object_name@,
            r.present_value == 1,
            r.description@ == Seq::<char>::empty(),
            r.device_type@ == Seq::<char>::empty(),
            r.status_flags == 0,
            r.event_state == EventState::Normal,
            r.reliability == Reliability::NoFaultDetected,
            !r.out_of_service,
            r.number_of_states == number_of_states,
            default_state_texts(r.state_text@, number_of_states as nat),
    {
        MultiStateInput {
            identifier: ObjectIdentifier::new(ObjectType::MultiStateInput, instance),
            object_name,
            present_value: 1,
            description: String::new(),
            device_type: String::new(),
            status_flags: 0,
            event_state: EventState::Normal,
            reliability: Reliability::NoFaultDetected,
            out_of_service: false,
            number_of_states,
            state_text: default_texts(number_of_states),
        }
    }

    /// Sets the present value, which must be a state from 1 to N.
    pub fn set_present_value(&mut self, value: u32) -> (r: Result<(), ObjectError>)
        ensures
            (1 <= value <= old(self).number_of_states) <==> r is Ok,
            r is Ok ==> *final(self) == (MultiStateInput { present_value: value, ..*old(self) }),
            r is Err ==> range_error(r, "Value"@, old(self).number_of_states) && *final(self) == *old(self),
    {
        if value < 1 || value > self.number_of_states {
            return Err(out_of_range("Value", self.number_of_states));
        }
        self.present_value = value;
        Ok(())
    }

    /// The text of the present state, where there is one.
    pub fn get_state_text(&self) -> (r: Option<&str>)
        ensures
            (0 < self.present_value <= self.state_text@.len()) <==> r is Some,
            r matches Some(t) ==> t@ == self.state_text@[self.present_value - 1]@,
    {
        if self.present_value > 0 && (self.present_value as usize) <= self.state_text.len() {
            Some(self.state_text[(self.present_value - 1) as usize].as_str())
        } else {
            None
        }
    }

    /// Sets the text of state `state` (1 to N).
    pub fn set_state_text(&mut self, state: u32, text: String) -> (r: Result<(), ObjectError>)
        requires
            1 <= state <= old(self).number_of_states ==> state <= old(self).state_text@.len(),
        ensures
            (1 <= state <= old(self).number_of_states) <==> r is Ok,
            r is Ok ==> final(self).state_text@ == old(self).state_text@.update(state - 1, text),
            r is Ok ==> *final(self) == (MultiStateInput { state_text: final(self).state_text, ..*old(self) }),
            r is Err ==> range_error(r, "State"@, old(self).number_of_states) && *final(self) == *old(self),
    {
        if state < 1 || state > self.number_of_states {
            return Err(out_of_range("State", self.number_of_states));
        }
        self.state_text.set((state - 1) as usize, text);
        Ok(())
    }
}

impl MultiStateOutput {
    /// Creates a Multi-state Output in state 1, every priority empty,
    /// relinquish default 1.
    pub fn new(instance: u32, object_name: String, number_of_states: u32) -> (r: Self)
        ensures
            r.identifier == (ObjectIdentifier { object_type: ObjectType::MultiStateOutput, instance }),
            r.object_name@ == object_name@,
            r.present_value == 1,
            r.description@ == Seq::<char>::empty(),
            r.device_type@ == Seq::<char>::empty(),
            r.status_flags == 0,
            r.event_state == EventState::Normal,
            r.reliability == Reliability::NoFaultDetected,
            !r.out_of_service,
            r.number_of_states == number_of_states,
            default_state_texts(r.state_text@, number_of_states as nat),
            r.priority_array@ == Seq::new(16, |i: int| None::<u32>),
            r.relinquish_default == 1,
    {
        let r = MultiStateOutput {
            identifier: ObjectIdentifier::new(ObjectType::MultiStateOutput, instance),
            object_name,
            present_value: 1,
            description: String::new(),
            device_type: String::new(),
            status_flags: 0,
            event_state: EventState::Normal,
            reliability: Reliability::NoFaultDetected,
            out_of_service: false,
            number_of_states,
            state_text: default_texts(number_of_states),
            priority_array: [None; 16],
            relinquish_default: 1,
        };
        assert(r.priority_array@ =~= Seq::new(16, |i: int| None::<u32>));
        r
    }

    /// Writes a priority level (1-16) with a state from 1 to N, or
    /// relinquishes it with `None`; the present value becomes the value of
    /// the highest non-empty level, or the relinquish default.
    pub fn write_priority(&mut self, priority: u8, value: Option<u32>) -> (r: Result<(), ObjectError>)
        ensures
            (1 <= priority <= 16 && (value matches Some(v) ==> 1 <= v <= old(self).number_of_states)) <==> r is Ok,
            r is Ok ==> final(self).priority_array@ == old(self).priority_array@.update(priority - 1, value),
            r is Ok ==> final(self).present_value == commanded_value(final(self).priority_array@, final(self).relinquish_default),
            r is Ok ==> *final(self) == (MultiStateOutput {
                priority_array: final(self).priority_array,
                present_value: final(self).present_value,
                ..*old(self)
            }),
            !(1 <= priority <= 16) ==> priority_range_error(r),
            (1 <= priority <= 16 && (value matches Some(v) && !(1 <= v <= old(self).number_of_states)))
                ==> range_error(r, "Value"@, old(self).number_of_states),
            r is Err ==> *final(self) == *old(self),
    {
        if priority < 1 || priority > 16 {
            return Err(ObjectError::InvalidValue(chars_of("Priority must be 1-16")));
        }
        if let Some(val) = value {
            if val < 1 || val > self.number_of_states {
                return Err(out_of_range("Value", self.number_of_states));
            }
        }
        self.priority_array[(priority - 1) as usize] = value;
        self.present_value = commanded(&self.priority_array, self.relinquish_default);
        Ok(())
    }

    /// The priority level (1-16) of the value in force, if any.
    pub fn get_effective_priority(&self) -> (r: Option<u8>)
        ensures
            r == effective_priority(self.priority_array@),
    {
        effective_level(&self.priority_array)
    }
}

impl MultiStateValue {
    /// Creates a Multi-state Value in state 1, every priority empty,
    /// relinquish default 1.
    pub fn new(instance: u32, object_name: String, number_of_states: u32) -> (r: Self)
        ensures
            r.identifier == (ObjectIdentifier { object_type: ObjectType::MultiStateValue, instance }),
            r.object_name@ == object_name@,
            r.present_value == 1,
            r.description@ == Seq::<char>::empty(),
            r.status_flags == 0,
            r.event_state == EventState::Normal,
            r.reliability == Reliability::NoFaultDetected,
            !r.out_of_service,
            r.number_of_states == number_of_states,
            default_state_texts(r.state_text@, number_of_states as nat),
            r.priority_array@ == Seq::new(16, |i: int| None::<u32>),
            r.relinquish_default == 1,
    {
        let r = MultiStateValue {
            identifier: ObjectIdentifier::new(ObjectType::MultiStateValue, instance),
            object_name,
            present_value: 1,
            description: String::new(),
            status_flags: 0,
            event_state: EventState::Normal,
            reliability: Reliability::NoFaultDetected,
            out_of_service: false,
            number_of_states,
            state_text: default_texts(number_of_states),
            priority_array: [None; 16],
            relinquish_default: 1,
        };
        assert(r.priority_array@ =~= Seq::new(16, |i: int| None::<u32>));
        r
    }

    /// Writes a priority level (1-16) with a state from 1 to N, or
    /// relinquishes it with `None`; the present value becomes the value of
    /// the highest non-empty level, or the relinquish default.
    pub fn write_priority(&mut self, priority: u8, value: Option<u32>) -> (r: Result<(), ObjectError>)
        ensures
            (1 <= priority <= 16 && (value matches Some(v) ==> 1 <= v <= old(self).number_of_states)) <==> r is Ok,
            r is Ok ==> final(self).priority_array@ == old(self).priority_array@.update(priority - 1, value),
            r is Ok ==> final(self).present_value == commanded_value(final(self).priority_array@, final(self).relinquish_default),
            r is Ok ==> *final(self) == (MultiStateValue {
                priority_array: final(self).priority_array,
                present_value: final(self).present_value,
                ..*old(self)
            }),
            !(1 <= priority <= 16) ==> priority_range_error(r),
            (1 <= priority <= 16 && (value matches Some(v) && !(1 <= v <= old(self).number_of_states)))
                ==> range_error(r, "Value"@, old(self).number_of_states),
            r is Err ==> *final(self) == *old(self),
    {
        if priority < 1 || priority > 16 {
            return Err(ObjectError::InvalidValue(chars_of("Priority must be 1-16")));
        }
        if let Some(val) = value {
            if val < 1 || val > self.number_of_states {
                return Err(out_of_range("Value", self.number_of_states));
            }
        }
        self.priority_array[(priority - 1) as usize] = value;
        self.present_value = commanded(&self.priority_array, self.relinquish_default);
        Ok(())
    }
}

} // verus!
