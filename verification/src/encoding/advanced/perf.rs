//! A reusable encoder for the most common values.

use vstd::prelude::*;

use crate::encoding::integer::{encode_unsigned, unsigned_bytes};
use crate::encoding::{app_primitive_bytes, boolean_bytes, encode_app_primitive, EncodingError};

verus! {

/// An encoder that appends to one reusable buffer.
pub struct FastEncoder {
    buffer: Vec<u8>,
}

impl View for FastEncoder {
    type V = Seq<u8>;

    closed spec fn view(&self) -> Seq<u8> {
        self.buffer@
    }
}

impl FastEncoder {
    /// Creates an empty encoder.
    pub fn new(capacity: usize) -> (r: Self)
        ensures
            r@ == Seq::<u8>::empty(),
    {
        FastEncoder { buffer: Vec::with_capacity(capacity) }
    }

    /// The octets encoded so far.
    pub fn data(&self) -> (r: &[u8])
        ensures
            r@ == self@,
    {
        self.buffer.as_slice()
    }

    /// Empties the buffer for reuse.
    pub fn clear(&mut self)
        ensures
            final(self)@ == Seq::<u8>::empty(),
    {
        self.buffer.clear();
    }

    /// Appends an application-tagged unsigned integer.
    pub fn encode_unsigned_fast(&mut self, value: u32) -> (r: Result<(), EncodingError>)
        ensures
            r is Ok,
            final(self)@ == old(self)@ + app_primitive_bytes(2, unsigned_bytes(value as nat)),
    {
        encode_unsigned(&mut self.buffer, value)
    }

    /// Appends an application-tagged boolean: 0x11 for true, 0x10 for false.
    pub fn encode_boolean_fast(&mut self, value: bool) -> (r: Result<(), EncodingError>)
        ensures
            r is Ok,
            final(self)@ == old(self)@ + seq![if value { 0x11u8 } else { 0x10u8 }],
            final(self)@ == old(self)@ + boolean_bytes(value),
    {
        self.buffer.push(if value { 0x11 } else { 0x10 });
        Ok(())
    }

    /// Appends an application-tagged primitive with tag `number` and
    /// `content`.
    pub fn append_app_primitive(&mut self, number: u32, content: &[u8])
        requires
            number <= 254,
            content@.len() <= 0xFFFF_FFFF,
        ensures
            final(self)@ == old(self)@ + app_primitive_bytes(number, content@),
    {
        encode_app_primitive(&mut self.buffer, number, content);
    }
}

} // verus!
