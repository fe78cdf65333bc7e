//! The Device object's registry of object types: for each type served, the
//! handlers that count, name, read and write its instances, and the
//! dispatch of property reads and writes to them.

use vstd::prelude::*;

use super::{ObjectError, ObjectIdentifier, ObjectType};
use crate::text::{chars_of, concat, dec_text, push_decimal, text_of};

verus! {

/// The operations on the instances of one object type, as the user of the
/// library implements them: the device only calls them and passes on what
/// they return.
pub trait ObjectHandlers {
    /// The property identifiers the handlers take.
    type Property: Copy;
    /// The property values they read and write.
    type Value;

    /// The number of instances.
    fn count(&self) -> usize;

    /// The instance number at an index.
    fn index_to_instance(&self, index: usize) -> Option<u32>;

    /// Whether an instance number is served.
    fn valid_instance(&self, instance: u32) -> bool;

    /// The name of an instance.
    fn object_name(&self, instance: u32) -> Option<String>;

    /// Reads a property of an instance.
    fn read_property(&self, instance: u32, property: Self::Property) -> Result<Self::Value, ObjectError>;

    /// Writes a property of an instance.
    fn write_property(&self, instance: u32, property: Self::Property, value: Self::Value) -> Result<(), ObjectError>;

    /// Whether a property of an instance can be written.
    fn is_property_writable(&self, instance: u32, property: Self::Property) -> bool;

    /// The properties of an instance.
    fn property_list(&self, instance: u32) -> Vec<Self::Property>;
}

/// The handlers registered for one object type.
#[derive(Debug, Clone)]
pub struct ObjectFunctions<H> {
    /// The object type these functions handle
    pub object_type: ObjectType,
    /// What the functions are
    pub handlers: H,
}

/// The test for an entry of another type than `t`.
pub open spec fn other_type<H>(t: ObjectType) -> spec_fn(ObjectFunctions<H>) -> bool {
    |e: ObjectFunctions<H>| e.object_type != t
}

/// Whether some entry of `table` is for type `t`.
pub open spec fn registered<H>(table: Seq<ObjectFunctions<H>>, t: ObjectType) -> bool {
    exists|i: int| 0 <= i < table.len() && table[i].object_type == t
}

/// The sum of `counts`, or `usize::MAX` when it is larger.
pub open spec fn saturated_sum(counts: Seq<usize>) -> int
    decreases counts.len(),
{
    if counts.len() == 0 {
        0
    } else {
        let s = saturated_sum(counts.drop_last()) + counts.last();
        if s > usize::MAX {
            usize::MAX as int
        } else {
            s
        }
    }
}

/// Device Object that manages all object types and instances
#[derive(Debug, Clone)]
pub struct DeviceObject<H> {
    /// Object function registry, one entry per object type
    pub object_table: Vec<ObjectFunctions<H>>,
    /// Device instance number
    pub device_instance: u32,
    /// Device object identifier
    pub device_identifier: String,
    /// Device name
    pub device_name: String,
    /// Device description
    pub device_description: String,
    /// Vendor identifier
    pub vendor_identifier: u16,
    /// Vendor name
    pub vendor_name: String,
    /// Model name
    pub model_name: String,
    /// Firmware revision
    pub firmware_revision: String,
    /// Application software version
    pub application_software_version: String,
    /// Protocol version (1 for BACnet)
    pub protocol_version: u8,
    /// Protocol revision (ASHRAE 135 revision number)
    pub protocol_revision: u8,
}

impl<H: ObjectHandlers> DeviceObject<H> {
    /// Whether no two entries of the registry are for the same type.
    pub open spec fn wf(&self) -> bool {
        distinct_types(self.object_table@)
    }

    /// A device with no object types registered, named `device_name`,
    /// identified as "Device-" and its instance number, of vendor 0
    /// "Unknown", model "BACnet-RS Device", firmware and software "1.0",
    /// protocol version 1, revision 30.
    pub fn new(device_instance: u32, device_name: String) -> (r: Self)
        ensures
            r.wf(),
            r.object_table@.len() == 0,
            r.device_instance == device_instance,
            r.device_identifier@ == "Device-"@ + dec_text(device_instance as nat),
            r.device_name@ == device_name@,
            r.device_description@ == Seq::<char>::empty(),
            r.vendor_identifier == 0,
            r.vendor_name@ == "Unknown"@,
            r.model_name@ == "BACnet-RS Device"@,
            r.firmware_revision@ == "1.0"@,
            r.application_software_version@ == "1.0"@,
            r.protocol_version == 1,
            r.protocol_revision == 30,
    {
        let mut digits: Vec<char> = Vec::new();
        push_decimal(&mut digits, device_instance as u64);
        let identifier = concat(chars_of("Device-"), text_of(&digits).as_str());
        DeviceObject {
            object_table: Vec::new(),
            device_instance,
            device_identifier: identifier,
            device_name,
            device_description: String::new(),
            vendor_identifier: 0,
            vendor_name: chars_of("Unknown"),
            model_name: chars_of("BACnet-RS Device"),
            firmware_revision: chars_of("1.0"),
            application_software_version: chars_of("1.0"),
            protocol_version: 1,
            protocol_revision: 30,
        }
    }

    /// The handlers registered for `object_type`, if any.
    pub fn find_object_functions(&self, object_type: ObjectType) -> (r: Option<&ObjectFunctions<H>>)
        ensures
            r is None <==> !registered(self.object_table@, object_type),
            r matches Some(f) ==> f.object_type == object_type && self.object_table@.contains(*f),
    {
        let mut i: usize = 0;
        while i < self.object_table.len()
            invariant
                i <= self.object_table@.len(),
                forall|j: int| 0 <= j < i ==> self.object_table@[j].object_type != object_type,
            decreases self.object_table@.len() - i,
        {
            if self.object_table[i].object_type == object_type {
                return Some(&self.object_table[i]);
            }
            i = i + 1;
        }
        None
    }

    /// The whole registry.
    pub fn object_functions(&self) -> (r: &[ObjectFunctions<H>])
        ensures
            r@ == self.object_table@,
    {
        self.object_table.as_slice()
    }

    /// Registers `functions` for its type, in place of any handlers
    /// registered for that type before.
    pub fn register_object_functions(&mut self, functions: ObjectFunctions<H>)
        requires
            old(self).wf(),
        ensures
            final(self).wf(),
            final(self).object_table@ == old(self).object_table@.filter(other_type::<H>(functions.object_type)).push(
                functions,
            ),
            *final(self) == (DeviceObject { object_table: final(self).object_table, ..*old(self) }),
    {
        let ghost all = self.object_table@;
        let ghost pred = other_type::<H>(functions.object_type);
        let mut table: Vec<ObjectFunctions<H>> = Vec::new();
        std::mem::swap(&mut table, &mut self.object_table);
        let mut kept: Vec<ObjectFunctions<H>> = Vec::new();
        while table.len() > 0
            invariant
                pred == other_type::<H>(functions.object_type),
                ({
                    let done = all.len() - table@.len();
                    &&& 0 <= done <= all.len()
                    &&& table@ == all.subrange(done, all.len() as int)
                    &&& kept@ == all.subrange(0, done).filter(pred)
                }),
            decreases table@.len(),
        {
            let ghost done = all.len() - table@.len();
            let e = table.remove(0);
            proof {
                assert(all.subrange(0, done + 1) =~= all.subrange(0, done).push(all[done]));
                all.subrange(0, done).lemma_filter_push(all[done], pred);
                assert(table@ =~= all.subrange(done + 1, all.len() as int));
            }
            if e.object_type != functions.object_type {
                kept.push(e);
            }
        }
        proof {
            assert(all.subrange(0, all.len() as int) =~= all);
        }
        let ghost f = functions;
        kept.push(functions);
        self.object_table = kept;
        proof {
            let t = self.object_table@;
            let base = all.filter(pred);
            assert(distinct_types(all));
            lemma_filter_distinct_types(all, pred);
            assert forall|i: int, j: int| 0 <= i < j < t.len() implies #[trigger] t[i].object_type
                != #[trigger] t[j].object_type by {
                if j == t.len() - 1 {
                    assert(t[i] == base[i]);
                    all.lemma_filter_pred(pred, i);
                } else {
                    assert(t[i] == base[i] && t[j] == base[j]);
                }
            }
        }
    }

    /// The device instance number.
    pub fn device_instance(&self) -> (r: u32)
        ensures
            r == self.device_instance,
    {
        self.device_instance
    }

    /// The device name.
    pub fn device_name(&self) -> (r: &str)
        ensures
            r@ == self.device_name@,
    {
        self.device_name.as_str()
    }

    /// The device identifier text.
    pub fn device_identifier(&self) -> (r: &str)
        ensures
            r@ == self.device_identifier@,
    {
        self.device_identifier.as_str()
    }

    /// The application software version.
    pub fn application_software_version(&self) -> (r: &str)
        ensures
            r@ == self.application_software_version@,
    {
        self.application_software_version.as_str()
    }

    /// The protocol version.
    pub fn protocol_version(&self) -> (r: u8)
        ensures
            r == self.protocol_version,
    {
        self.protocol_version
    }

    /// The protocol revision.
    pub fn protocol_revision(&self) -> (r: u8)
        ensures
            r == self.protocol_revision,
    {
        self.protocol_revision
    }

    /// Sets the device description.
    pub fn set_device_description(&mut self, description: String)
        ensures
            *final(self) == (DeviceObject { device_description: description, ..*old(self) }),
    {
        self.device_description = description;
    }

    /// Sets the vendor identifier and name.
    pub fn set_vendor_info(&mut self, vendor_id: u16, vendor_name: String)
        ensures
            *final(self) == (DeviceObject { vendor_identifier: vendor_id, vendor_name: vendor_name, ..*old(self) }),
    {
        self.vendor_identifier = vendor_id;
        self.vendor_name = vendor_name;
    }

    /// Sets the model name and firmware revision.
    pub fn set_model_info(&mut self, model_name: String, firmware_revision: String)
        ensures
            *final(self) == (DeviceObject { model_name: model_name, firmware_revision: firmware_revision, ..*old(self) }),
    {
        self.model_name = model_name;
        self.firmware_revision = firmware_revision;
    }

    /// Reads a property of an object of this device: `TypeNotSupported`
    /// where no handlers are registered for its type, `InstanceNotFound`
    /// where they do not serve its instance, otherwise what their read
    /// gives.
    pub fn read_object_property(&self, object_id: ObjectIdentifier, property: H::Property) -> (r: Result<
        H::Value,
        ObjectError,
    >)
        ensures
            !registered(self.object_table@, object_id.object_type) ==> r matches Err(ObjectError::TypeNotSupported),
    {
        match self.find_object_functions(object_id.object_type) {
            Some(funcs) => {
                let valid = funcs.handlers.valid_instance(object_id.instance);
                match access_refusal(valid, None) {
                    Some(e) => Err(e),
                    None => funcs.handlers.read_property(object_id.instance, property),
                }
            },
            None => Err(ObjectError::TypeNotSupported),
        }
    }

    /// Writes a property of an object of this device: `TypeNotSupported`
    /// where no handlers are registered for its type, `InstanceNotFound`
    /// where they do not serve its instance, `PropertyNotWritable` where
    /// they say the property cannot be written, otherwise what their write
    /// gives.
    pub fn write_object_property(&self, object_id: ObjectIdentifier, property: H::Property, value: H::Value) -> (r:
        Result<(), ObjectError>)
        ensures
            !registered(self.object_table@, object_id.object_type) ==> r matches Err(ObjectError::TypeNotSupported),
    {
        match self.find_object_functions(object_id.object_type) {
            Some(funcs) => {
                let valid = funcs.handlers.valid_instance(object_id.instance);
                if let Some(e) = access_refusal(valid, None) {
                    return Err(e);
                }
                let writable = funcs.handlers.is_property_writable(object_id.instance, property);
                match access_refusal(valid, Some(writable)) {
                    Some(e) => Err(e),
                    None => funcs.handlers.write_property(object_id.instance, property, value),
                }
            },
            None => Err(ObjectError::TypeNotSupported),
        }
    }

    /// The number of objects over all registered types, as the handlers
    /// count them; `usize::MAX` when the sum is larger.
    pub fn total_object_count(&self) -> (r: usize) {
        let mut counts: Vec<usize> = Vec::new();
        let mut i: usize = 0;
        while i < self.object_table.len()
            invariant
                i <= self.object_table@.len(),
            decreases self.object_table@.len() - i,
        {
            counts.push(self.object_table[i].handlers.count());
            i = i + 1;
        }
        sum_counts(counts.as_slice())
    }
}

/// Why the device refuses a property access once the handlers of the
/// object's type have answered whether they serve the instance and, for a
/// write, whether the property can be written: `InstanceNotFound`, then
/// `PropertyNotWritable`; `None` where the access goes on to the
/// handlers' own read or write.
pub fn access_refusal(valid_instance: bool, writable: Option<bool>) -> (r: Option<ObjectError>)
    ensures
        !valid_instance ==> r matches Some(ObjectError::InstanceNotFound),
        valid_instance && writable == Some(false) ==> r matches Some(ObjectError::PropertyNotWritable),
        valid_instance && writable != Some(false) ==> r is None,
{
    if !valid_instance {
        Some(ObjectError::InstanceNotFound)
    } else {
        match writable {
            Some(false) => Some(ObjectError::PropertyNotWritable),
            _ => None,
        }
    }
}

/// The sum of `counts`, or `usize::MAX` when it is larger.
pub fn sum_counts(counts: &[usize]) -> (r: usize)
    ensures
        r == saturated_sum(counts@),
{
    let mut total: usize = 0;
    let mut i: usize = 0;
    while i < counts.len()
        invariant
            i <= counts@.len(),
            total == saturated_sum(counts@.subrange(0, i as int)),
        decreases counts@.len() - i,
    {
        assert(counts@.subrange(0, i + 1).drop_last() =~= counts@.subrange(0, i as int));
        total = total.saturating_add(counts[i]);
        i = i + 1;
    }
    assert(counts@.subrange(0, i as int) =~= counts@);
    total
}

/// Whether no two entries of `s` are for the same object type.
pub open spec fn distinct_types<H>(s: Seq<ObjectFunctions<H>>) -> bool {
    forall|i: int, j: int| 0 <= i < j < s.len() ==> #[trigger] s[i].object_type != #[trigger] s[j].object_type
}

/// Leaving entries out keeps the types distinct.
proof fn lemma_filter_distinct_types<H>(s: Seq<ObjectFunctions<H>>, pred: spec_fn(ObjectFunctions<H>) -> bool)
    requires
        distinct_types(s),
    ensures
        distinct_types(s.filter(pred)),
    decreases s.len(),
{
    if s.len() > 0 {
        let t = s.drop_last();
        let x = s.last();
        assert(s =~= t.push(x));
        t.lemma_filter_push(x, pred);
        assert(distinct_types(t)) by {
            assert forall|i: int, j: int| 0 <= i < j < t.len() implies #[trigger] t[i].object_type
                != #[trigger] t[j].object_type by {
                assert(t[i] == s[i] && t[j] == s[j]);
            }
        }
        lemma_filter_distinct_types(t, pred);
        if pred(x) {
            let f = t.filter(pred);
            let g = f.push(x);
            assert forall|i: int, j: int| 0 <= i < j < g.len() implies #[trigger] g[i].object_type
                != #[trigger] g[j].object_type by {
                if j == f.len() {
                    assert(g[i] == f[i]);
                    assert(f.contains(f[i]));
                    t.lemma_filter_contains_rev(pred, f[i]);
                    let k = choose|k: int| 0 <= k < t.len() && t[k] == f[i];
                    assert(s[k] == t[k]);
                    assert(s[s.len() - 1] == x);
                } else {
                    assert(g[i] == f[i] && g[j] == f[j]);
                }
            }
        }
    }
}

} // verus!
