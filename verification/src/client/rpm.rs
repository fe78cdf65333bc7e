//! The decisions behind a batch of ReadPropertyMultiple requests: which
//! properties are asked of each object, and how the objects are split into
//! requests.

use vstd::prelude::*;

use crate::object::{ObjectIdentifier, ObjectType};

verus! {

/// The number of objects asked about in one ReadPropertyMultiple request.
pub const RPM_BATCH_SIZE: usize = 5;

/// The properties that a batch read asks of an object.
#[derive(Debug, Clone, Copy, PartialEq, Eq, Structural)]
pub enum PropertyIdentifier {
    ObjectName,
    Description,
    PresentValue,
    StatusFlags,
    Units,
}

/// The BACnet number of a property.
pub open spec fn property_code(p: PropertyIdentifier) -> u32 {
    match p {
        PropertyIdentifier::ObjectName => 77,
        PropertyIdentifier::Description => 28,
        PropertyIdentifier::PresentValue => 85,
        PropertyIdentifier::StatusFlags => 111,
        PropertyIdentifier::Units => 117,
    }
}

impl PropertyIdentifier {
    /// The BACnet number of the property.
    pub fn code(self) -> (r: u32)
        ensures
            r == property_code(self),
    {
        match self {
            PropertyIdentifier::ObjectName => 77,
            PropertyIdentifier::Description => 28,
            PropertyIdentifier::PresentValue => 85,
            PropertyIdentifier::StatusFlags => 111,
            PropertyIdentifier::Units => 117,
        }
    }
}

/// Whether objects of type `t` have a present value and status flags: the
/// input, output and value objects.
pub open spec fn has_present_value(t: ObjectType) -> bool {
    match t {
        ObjectType::AnalogInput | ObjectType::AnalogOutput | ObjectType::AnalogValue | ObjectType::BinaryInput
        | ObjectType::BinaryOutput | ObjectType::BinaryValue | ObjectType::MultiStateInput
        | ObjectType::MultiStateOutput | ObjectType::MultiStateValue => true,
        _ => false,
    }
}

/// Whether objects of type `t` have engineering units: the analog objects.
pub open spec fn has_units(t: ObjectType) -> bool {
    match t {
        ObjectType::AnalogInput | ObjectType::AnalogOutput | ObjectType::AnalogValue => true,
        _ => false,
    }
}

/// The properties asked of an object of type `t`, in order: its name and
/// description; its present value and status flags where it has them; its
/// units where it is analog.
pub open spec fn rpm_property_spec(t: ObjectType) -> Seq<PropertyIdentifier> {
    let base = seq![PropertyIdentifier::ObjectName, PropertyIdentifier::Description];
    let with_value = if has_present_value(t) {
        base + seq![PropertyIdentifier::PresentValue, PropertyIdentifier::StatusFlags]
    } else {
        base
    };
    if has_units(t) {
        with_value.push(PropertyIdentifier::Units)
    } else {
        with_value
    }
}

/// The properties that a batch read asks of an object of type `t`.
pub fn rpm_properties(t: ObjectType) -> (r: Vec<PropertyIdentifier>)
    ensures
        r@ == rpm_property_spec(t),
{
    let mut r: Vec<PropertyIdentifier> = Vec::new();
    r.push(PropertyIdentifier::ObjectName);
    r.push(PropertyIdentifier::Description);
    let value = match t {
        ObjectType::AnalogInput | ObjectType::AnalogOutput | ObjectType::AnalogValue | ObjectType::BinaryInput
        | ObjectType::BinaryOutput | ObjectType::BinaryValue | ObjectType::MultiStateInput
        | ObjectType::MultiStateOutput | ObjectType::MultiStateValue => true,
        _ => false,
    };
    if value {
        r.push(PropertyIdentifier::PresentValue);
        r.push(PropertyIdentifier::StatusFlags);
    }
    let units = match t {
        ObjectType::AnalogInput | ObjectType::AnalogOutput | ObjectType::AnalogValue => true,
        _ => false,
    };
    if units {
        r.push(PropertyIdentifier::Units);
    }
    assert(r@ =~= rpm_property_spec(t));
    r
}

/// The end of batch `i` of a list of `n` objects.
pub open spec fn batch_end(n: int, i: int) -> int {
    if 5 * i + 5 <= n {
        5 * i + 5
    } else {
        n
    }
}

/// Splits `objs` into requests of five objects each, in order; the last
/// holds what is left, from one to five. No objects, no requests.
pub fn rpm_batches(objs: &[ObjectIdentifier]) -> (r: Vec<Vec<ObjectIdentifier>>)
    ensures
        r@.len() == (objs@.len() + 4) / 5,
        forall|i: int| 0 <= i < r@.len() ==> (#[trigger] r@[i])@ == objs@.subrange(5 * i, batch_end(objs@.len() as int, i)),
{
    let n = objs.len();
    let mut r: Vec<Vec<ObjectIdentifier>> = Vec::new();
    let mut start: usize = 0;
    while start < n
        invariant
            n == objs@.len(),
            start <= n,
            start <= 5 * r@.len(),
            start < n ==> start == 5 * r@.len(),
            r@.len() > 0 ==> 5 * r@.len() < start + 5,
            r@.len() == 0 ==> start == 0,
            forall|i: int| 0 <= i < r@.len() ==> (#[trigger] r@[i])@ == objs@.subrange(5 * i, batch_end(n as int, i)),
        decreases n - start,
    {
        let end: usize = if n - start >= RPM_BATCH_SIZE { start + RPM_BATCH_SIZE } else { n };
        let mut batch: Vec<ObjectIdentifier> = Vec::new();
        let mut k: usize = start;
        while k < end
            invariant
                start <= k <= end,
                end <= n,
                n == objs@.len(),
                batch@ == objs@.subrange(start as int, k as int),
            decreases end - k,
        {
            batch.push(objs[k]);
            assert(objs@.subrange(start as int, k + 1) =~= objs@.subrange(start as int, k as int).push(objs@[k as int]));
            k = k + 1;
        }
        let ghost old_r = r@;
        r.push(batch);
        assert forall|i: int| 0 <= i < r@.len() implies (#[trigger] r@[i])@ == objs@.subrange(5 * i, batch_end(n as int, i)) by {
            if i < old_r.len() {
                assert(r@[i] == old_r[i]);
            } else {
                assert(i == old_r.len());
                assert(5 * i == start);
            }
        }
        start = end;
    }
    let ghost len = r@.len() as int;
    assert((n + 4) / 5 == len) by (nonlinear_arith)
        requires
            n <= 5 * len,
            len > 0 ==> 5 * len < n + 5,
            len == 0 ==> n == 0,
            len >= 0,
    ;
    r
}

} // verus!
