//! Streams of encoded values: an encoder that appends values to a bounded
//! buffer, a decoder that reads values one after another, and encoders
//! for property lists and error PDUs.

use vstd::prelude::*;

use super::character_string::{
    character_string_bytes, character_string_decode, encode_character_string, encode_utf8_content, utf8_content,
    CharacterSet,
};
use super::date_time::{date_decode, time_decode};
use super::integer::{
    be_signed, be_value, decode_enumerated, decode_signed, decode_unsigned, encode_context_signed,
    encode_context_unsigned, encode_enumerated, encode_signed, encode_unsigned, int_decode, signed_bytes,
    unsigned_bytes,
};
use super::object_identifier::object_identifier_decode;
use super::octet_string::OCTET_STRING_TAG;
use super::tag::{app_tag_code, tag_bytes, tag_content_length, tag_decode, ApplicationTagNumber, Tag, TagClass, TagValue};
use super::{
    app_content, app_primitive_bytes, append_bytes, be_bytes4, boolean_bytes, boolean_decode, context_primitive_bytes,
    decode_boolean, decode_character_string, decode_date, decode_object_identifier, decode_octet_string, decode_time,
    encode_boolean, encode_closing_tag, encode_context_tag, encode_opening_tag, lemma_tag_decode_within, to_be_bytes4,
    EncodingError,
};
use crate::object::ObjectIdentifier;
use vstd::utf8::encode_utf8;

verus! {

/// A value that can be encoded with an application tag or a context tag.
pub trait EncodableValue {
    /// Whether the value fits its encoding.
    spec fn encodable(&self) -> bool;

    /// The application-tagged octets of the value.
    spec fn app_encoding(&self) -> Seq<u8>;

    /// The octets of the value under context tag `tag_number`.
    spec fn context_encoding(&self, tag_number: u8) -> Seq<u8>;

    /// Appends the value with its application tag; the tag given is not
    /// consulted, each kind of value carrying its own.
    fn encode_to(&self, tag: ApplicationTagNumber, buffer: &mut Vec<u8>) -> (r: Result<(), EncodingError>)
        requires
            self.encodable(),
        ensures
            r is Ok,
            final(buffer)@ == old(buffer)@ + self.app_encoding(),
    ;

    /// Appends the value under context tag `tag_number` (at most 254).
    fn encode_context_to(&self, tag_number: u8, buffer: &mut Vec<u8>) -> (r: Result<(), EncodingError>)
        requires
            self.encodable(),
        ensures
            tag_number <= 254 ==> r is Ok && final(buffer)@ == old(buffer)@ + self.context_encoding(tag_number),
            tag_number > 254 ==> (r matches Err(EncodingError::ValueOutOfRange)) && final(buffer)@ == old(buffer)@,
    ;
}

/// The context tag of a primitive of `length` content octets.
pub open spec fn context_tag_bytes(tag_number: u8, length: u32) -> Seq<u8> {
    tag_bytes(Tag { number: tag_number as u32, class: TagClass::Context, value: TagValue::Primitive(length) })
}

impl EncodableValue for bool {
    open spec fn encodable(&self) -> bool {
        true
    }

    open spec fn app_encoding(&self) -> Seq<u8> {
        boolean_bytes(*self)
    }

    /// A context-tagged boolean carries its value as the tag's length,
    /// with no content octets.
    open spec fn context_encoding(&self, tag_number: u8) -> Seq<u8> {
        context_tag_bytes(tag_number, if *self { 1 } else { 0 })
    }

    fn encode_to(&self, tag: ApplicationTagNumber, buffer: &mut Vec<u8>) -> (r: Result<(), EncodingError>) {
        encode_boolean(buffer, *self)
    }

    fn encode_context_to(&self, tag_number: u8, buffer: &mut Vec<u8>) -> (r: Result<(), EncodingError>) {
        encode_context_tag(buffer, tag_number, if *self { 1 } else { 0 })
    }
}

impl EncodableValue for u32 {
    open spec fn encodable(&self) -> bool {
        true
    }

    open spec fn app_encoding(&self) -> Seq<u8> {
        app_primitive_bytes(2, unsigned_bytes(*self as nat))
    }

    open spec fn context_encoding(&self, tag_number: u8) -> Seq<u8> {
        context_primitive_bytes(tag_number, unsigned_bytes(*self as nat))
    }

    fn encode_to(&self, tag: ApplicationTagNumber, buffer: &mut Vec<u8>) -> (r: Result<(), EncodingError>) {
        encode_unsigned(buffer, *self)
    }

    fn encode_context_to(&self, tag_number: u8, buffer: &mut Vec<u8>) -> (r: Result<(), EncodingError>) {
        let encoded = encode_context_unsigned(*self, tag_number)?;
        append_bytes(buffer, encoded.as_slice());
        Ok(())
    }
}

impl EncodableValue for i32 {
    open spec fn encodable(&self) -> bool {
        true
    }

    open spec fn app_encoding(&self) -> Seq<u8> {
        app_primitive_bytes(3, signed_bytes(*self as int))
    }

    open spec fn context_encoding(&self, tag_number: u8) -> Seq<u8> {
        context_primitive_bytes(tag_number, signed_bytes(*self as int))
    }

    fn encode_to(&self, tag: ApplicationTagNumber, buffer: &mut Vec<u8>) -> (r: Result<(), EncodingError>) {
        encode_signed(buffer, *self)
    }

    fn encode_context_to(&self, tag_number: u8, buffer: &mut Vec<u8>) -> (r: Result<(), EncodingError>) {
        let encoded = encode_context_signed(*self, tag_number)?;
        append_bytes(buffer, encoded.as_slice());
        Ok(())
    }
}

impl<'a> EncodableValue for &'a str {
    open spec fn encodable(&self) -> bool {
        encode_utf8((**self)@).len() < 0xFFFF_FFFF
    }

    open spec fn app_encoding(&self) -> Seq<u8> {
        character_string_bytes((**self)@)
    }

    open spec fn context_encoding(&self, tag_number: u8) -> Seq<u8> {
        context_tag_bytes(tag_number, (encode_utf8((**self)@).len() + 1) as u32) + utf8_content((**self)@)
    }

    fn encode_to(&self, tag: ApplicationTagNumber, buffer: &mut Vec<u8>) -> (r: Result<(), EncodingError>) {
        encode_character_string(buffer, *self)
    }

    fn encode_context_to(&self, tag_number: u8, buffer: &mut Vec<u8>) -> (r: Result<(), EncodingError>) {
        encode_context_tag(buffer, tag_number, self.len() + 1)?;
        encode_utf8_content(buffer, *self);
        Ok(())
    }
}

/// An encoding stream: values appended to one buffer, refused once the
/// buffer has reached its size limit.
pub struct EncodingStream {
    buffer: Vec<u8>,
    position: usize,
    max_size: usize,
}

impl EncodingStream {
    /// The octets encoded so far.
    pub closed spec fn spec_data(&self) -> Seq<u8> {
        self.buffer@
    }

    /// The size limit.
    pub closed spec fn spec_max_size(&self) -> usize {
        self.max_size
    }

    /// Creates an empty stream with a size limit.
    pub fn new(max_size: usize) -> (r: Self)
        ensures
            r.spec_data() == Seq::<u8>::empty(),
            r.spec_max_size() == max_size,
    {
        EncodingStream { buffer: Vec::with_capacity(max_size), position: 0, max_size }
    }

    /// Appends an application-tagged value; refused with `BufferOverflow`
    /// once the stream holds its limit or more.
    pub fn encode_tagged<T: EncodableValue>(&mut self, tag: ApplicationTagNumber, value: T) -> (r: Result<(), EncodingError>)
        requires
            value.encodable(),
        ensures
            old(self).spec_data().len() >= old(self).spec_max_size() ==> (r matches Err(EncodingError::BufferOverflow))
                && final(self).spec_data() == old(self).spec_data(),
            old(self).spec_data().len() < old(self).spec_max_size() ==> r is Ok
                && final(self).spec_data() == old(self).spec_data() + value.app_encoding(),
            final(self).spec_max_size() == old(self).spec_max_size(),
    {
        if self.buffer.len() >= self.max_size {
            return Err(EncodingError::BufferOverflow);
        }
        value.encode_to(tag, &mut self.buffer)
    }

    /// Appends a context-tagged value; refused with `BufferOverflow` once
    /// the stream holds its limit or more, and with `ValueOutOfRange` for a
    /// tag number above 254.
    pub fn encode_context<T: EncodableValue>(&mut self, tag_number: u8, value: T) -> (r: Result<(), EncodingError>)
        requires
            value.encodable(),
        ensures
            old(self).spec_data().len() >= old(self).spec_max_size() ==> (r matches Err(EncodingError::BufferOverflow))
                && final(self).spec_data() == old(self).spec_data(),
            old(self).spec_data().len() < old(self).spec_max_size() && tag_number <= 254 ==> r is Ok
                && final(self).spec_data() == old(self).spec_data() + value.context_encoding(tag_number),
            old(self).spec_data().len() < old(self).spec_max_size() && tag_number > 254 ==> (r matches Err(
                EncodingError::ValueOutOfRange,
            )) && final(self).spec_data() == old(self).spec_data(),
            final(self).spec_max_size() == old(self).spec_max_size(),
    {
        if self.buffer.len() >= self.max_size {
            return Err(EncodingError::BufferOverflow);
        }
        value.encode_context_to(tag_number, &mut self.buffer)
    }

    /// The octets encoded so far.
    pub fn data(&self) -> (r: &[u8])
        ensures
            r@ == self.spec_data(),
    {
        self.buffer.as_slice()
    }

    /// The encoded octets, taking the stream.
    pub fn into_buffer(self) -> (r: Vec<u8>)
        ensures
            r@ == self.spec_data(),
    {
        self.buffer
    }

    /// Empties the stream.
    pub fn clear(&mut self)
        ensures
            final(self).spec_data() == Seq::<u8>::empty(),
            final(self).spec_max_size() == old(self).spec_max_size(),
    {
        self.buffer.clear();
        self.position = 0;
    }
}

/// A decoding stream: values read one after another from `data`.
pub struct DecodingStream<'a> {
    data: &'a [u8],
    position: usize,
}

/// What a decoder of a `u32`-valued integer gives, from its content octets.
pub open spec fn u32_decoded(d: Result<(Seq<u8>, usize), EncodingError>) -> Result<(u32, usize), EncodingError> {
    match d {
        Err(e) => Err(e),
        Ok((c, k)) => Ok((be_value(c) as u32, k)),
    }
}

/// What a decoder of an `i32`-valued integer gives, from its content octets.
pub open spec fn i32_decoded(d: Result<(Seq<u8>, usize), EncodingError>) -> Result<(i32, usize), EncodingError> {
    match d {
        Err(e) => Err(e),
        Ok((c, k)) => Ok((be_signed(c) as i32, k)),
    }
}

/// None of the decoders reads past the end of its input.
proof fn lemma_decoders_within(d: Seq<u8>)
    ensures
        boolean_decode(d) matches Ok((v, k)) ==> k <= d.len(),
        int_decode(d, 2, 4) matches Ok((c, k)) ==> k <= d.len(),
        int_decode(d, 3, 4) matches Ok((c, k)) ==> k <= d.len(),
        int_decode(d, 9, 4) matches Ok((c, k)) ==> k <= d.len(),
        app_content(d, OCTET_STRING_TAG) matches Ok((c, k)) ==> k <= d.len(),
        character_string_decode(d) matches Ok((t, s, k)) ==> k <= d.len(),
        date_decode(d) matches Ok((v, k)) ==> k <= d.len(),
        time_decode(d) matches Ok((v, k)) ==> k <= d.len(),
        object_identifier_decode(d) matches Ok((v, k)) ==> k <= d.len(),
{
    lemma_tag_decode_within(d);
}

impl<'a> DecodingStream<'a> {
    /// The data being read.
    pub closed spec fn spec_data(&self) -> Seq<u8> {
        self.data@
    }

    /// The position of the next value.
    pub closed spec fn spec_position(&self) -> usize {
        self.position
    }

    /// The octets from the position on.
    pub open spec fn rest(&self) -> Seq<u8> {
        self.spec_data().subrange(self.spec_position() as int, self.spec_data().len() as int)
    }

    /// Whether a step of `k` octets from the position fits a `usize`.
    pub open spec fn step_fits(&self, k: int) -> bool {
        self.spec_position() + k <= usize::MAX
    }

    /// Creates a stream at the start of `data`.
    pub fn new(data: &'a [u8]) -> (r: Self)
        ensures
            r.spec_data() == data@,
            r.spec_position() == 0,
    {
        DecodingStream { data, position: 0 }
    }

    /// Whether octets are left after the position.
    pub fn has_data(&self) -> (r: bool)
        ensures
            r == (self.spec_position() < self.spec_data().len()),
    {
        self.position < self.data.len()
    }

    /// How many octets are left after the position (0 past the end).
    pub fn remaining(&self) -> (r: usize)
        ensures
            r == (if self.spec_position() <= self.spec_data().len() {
                self.spec_data().len() - self.spec_position()
            } else {
                0int
            }),
    {
        if self.position <= self.data.len() {
            self.data.len() - self.position
        } else {
            0
        }
    }

    /// The datatype named by the next octet's tag number nibble, without
    /// moving; `UnexpectedEndOfData` where no octet is left.
    pub fn peek_tag(&self) -> (r: Result<ApplicationTagNumber, EncodingError>)
        ensures
            self.spec_position() >= self.spec_data().len() ==> r matches Err(EncodingError::UnexpectedEndOfData),
            self.spec_position() < self.spec_data().len() ==> (r matches Ok(t)
                && app_tag_code(t) == self.spec_data()[self.spec_position() as int] / 16),
    {
        if self.position >= self.data.len() {
            return Err(EncodingError::UnexpectedEndOfData);
        }
        let tag_byte = self.data[self.position];
        assert((tag_byte >> 4) as u32 == tag_byte / 16) by (bit_vector);
        ApplicationTagNumber::from_u32((tag_byte >> 4) as u32)
    }

    /// The octets not read yet: those from the position on (none if the
    /// position is past the end).
    pub fn unread(&self) -> (r: &[u8])
        ensures
            self.spec_position() <= self.spec_data().len() ==> r@ == self.rest(),
            self.spec_position() > self.spec_data().len() ==> r@ == Seq::<u8>::empty(),
    {
        let n = self.data.len();
        if self.position <= n {
            self.tail()
        } else {
            let r = vstd::slice::slice_subrange(self.data, n, n);
            assert(r@ =~= Seq::<u8>::empty());
            r
        }
    }

    /// The octets from the position on, as a slice.
    fn tail(&self) -> (r: &[u8])
        requires
            self.spec_position() <= self.spec_data().len(),
        ensures
            r@ == self.rest(),
            self.spec_data().len() <= usize::MAX,
    {
        let n = self.data.len();
        vstd::slice::slice_subrange(self.data, self.position, n)
    }

    /// Reads a boolean and moves past it; on an error the position stays.
    pub fn decode_boolean(&mut self) -> (r: Result<bool, EncodingError>)
        requires
            old(self).spec_position() <= old(self).spec_data().len(),
        ensures
            final(self).spec_data() == old(self).spec_data(),
            match boolean_decode(old(self).rest()) {
                Err(e) => r == Err::<bool, EncodingError>(e) && final(self).spec_position() == old(self).spec_position(),
                Ok((v, k)) => r == Ok::<bool, EncodingError>(v) && final(self).spec_position() == old(self).spec_position() + k,
            },
    {
        let (value, consumed) = decode_boolean(self.tail())?;
        proof {
            lemma_decoders_within(self.rest());
        }
        self.position = self.position + consumed;
        Ok(value)
    }

    /// Reads an unsigned integer and moves past it; on an error the
    /// position stays.
    pub fn decode_unsigned(&mut self) -> (r: Result<u32, EncodingError>)
        requires
            old(self).spec_position() <= old(self).spec_data().len(),
        ensures
            final(self).spec_data() == old(self).spec_data(),
            match u32_decoded(int_decode(old(self).rest(), 2, 4)) {
                Err(e) => r == Err::<u32, EncodingError>(e) && final(self).spec_position() == old(self).spec_position(),
                Ok((v, k)) => r == Ok::<u32, EncodingError>(v) && final(self).spec_position() == old(self).spec_position() + k,
            },
    {
        let (value, consumed) = decode_unsigned(self.tail())?;
        proof {
            lemma_decoders_within(self.rest());
        }
        self.position = self.position + consumed;
        Ok(value)
    }

    /// Reads a signed integer and moves past it; on an error the position
    /// stays.
    pub fn decode_signed(&mut self) -> (r: Result<i32, EncodingError>)
        requires
            old(self).spec_position() <= old(self).spec_data().len(),
        ensures
            final(self).spec_data() == old(self).spec_data(),
            match i32_decoded(int_decode(old(self).rest(), 3, 4)) {
                Err(e) => r == Err::<i32, EncodingError>(e) && final(self).spec_position() == old(self).spec_position(),
                Ok((v, k)) => r == Ok::<i32, EncodingError>(v) && final(self).spec_position() == old(self).spec_position() + k,
            },
    {
        let (value, consumed) = decode_signed(self.tail())?;
        proof {
            lemma_decoders_within(self.rest());
        }
        self.position = self.position + consumed;
        Ok(value)
    }

    /// Reads a character string and moves past it; on an error the
    /// position stays.
    pub fn decode_character_string(&mut self) -> (r: Result<String, EncodingError>)
        requires
            old(self).spec_position() <= old(self).spec_data().len(),
        ensures
            final(self).spec_data() == old(self).spec_data(),
            match character_string_decode(old(self).rest()) {
                Err(Some(e)) => r == Err::<String, EncodingError>(e) && final(self).spec_position() == old(self).spec_position(),
                Err(None) => (r matches Err(EncodingError::InvalidFormat(_))) && final(self).spec_position() == old(self).spec_position(),
                Ok((text, set, k)) => (r matches Ok(s) && s@ == text) && final(self).spec_position() == old(self).spec_position() + k,
            },
    {
        let (value, consumed) = decode_character_string(self.tail())?;
        proof {
            lemma_decoders_within(self.rest());
        }
        self.position = self.position + consumed;
        Ok(value)
    }

    /// Reads an octet string and moves past it; on an error the position
    /// stays.
    pub fn decode_octet_string(&mut self) -> (r: Result<Vec<u8>, EncodingError>)
        requires
            old(self).spec_position() <= old(self).spec_data().len(),
        ensures
            final(self).spec_data() == old(self).spec_data(),
            match app_content(old(self).rest(), OCTET_STRING_TAG) {
                Err(e) => r == Err::<Vec<u8>, EncodingError>(e) && final(self).spec_position() == old(self).spec_position(),
                Ok((c, k)) => (r matches Ok(v) && v@ == c) && final(self).spec_position() == old(self).spec_position() + k,
            },
    {
        let (value, consumed) = decode_octet_string(self.tail())?;
        proof {
            lemma_decoders_within(self.rest());
        }
        self.position = self.position + consumed;
        Ok(value)
    }

    /// Reads an enumerated value and moves past it; on an error the
    /// position stays.
    pub fn decode_enumerated(&mut self) -> (r: Result<u32, EncodingError>)
        requires
            old(self).spec_position() <= old(self).spec_data().len(),
        ensures
            final(self).spec_data() == old(self).spec_data(),
            match u32_decoded(int_decode(old(self).rest(), 9, 4)) {
                Err(e) => r == Err::<u32, EncodingError>(e) && final(self).spec_position() == old(self).spec_position(),
                Ok((v, k)) => r == Ok::<u32, EncodingError>(v) && final(self).spec_position() == old(self).spec_position() + k,
            },
    {
        let (value, consumed) = decode_enumerated(self.tail())?;
        proof {
            lemma_decoders_within(self.rest());
        }
        self.position = self.position + consumed;
        Ok(value)
    }

    /// Reads a date and moves past it; on an error the position stays.
    pub fn decode_date(&mut self) -> (r: Result<(u16, u8, u8, u8), EncodingError>)
        requires
            old(self).spec_position() <= old(self).spec_data().len(),
        ensures
            final(self).spec_data() == old(self).spec_data(),
            match date_decode(old(self).rest()) {
                Err(e) => r == Err::<(u16, u8, u8, u8), EncodingError>(e) && final(self).spec_position() == old(self).spec_position(),
                Ok((v, k)) => r == Ok::<(u16, u8, u8, u8), EncodingError>(v) && final(self).spec_position() == old(self).spec_position() + k,
            },
    {
        let (value, consumed) = decode_date(self.tail())?;
        proof {
            lemma_decoders_within(self.rest());
        }
        self.position = self.position + consumed;
        Ok(value)
    }

    /// Reads a time and moves past it; on an error the position stays.
    pub fn decode_time(&mut self) -> (r: Result<(u8, u8, u8, u8), EncodingError>)
        requires
            old(self).spec_position() <= old(self).spec_data().len(),
        ensures
            final(self).spec_data() == old(self).spec_data(),
            match time_decode(old(self).rest()) {
                Err(e) => r == Err::<(u8, u8, u8, u8), EncodingError>(e) && final(self).spec_position() == old(self).spec_position(),
                Ok((v, k)) => r == Ok::<(u8, u8, u8, u8), EncodingError>(v) && final(self).spec_position() == old(self).spec_position() + k,
            },
    {
        let (value, consumed) = decode_time(self.tail())?;
        proof {
            lemma_decoders_within(self.rest());
        }
        self.position = self.position + consumed;
        Ok(value)
    }

    /// Reads an object identifier and moves past it; on an error the
    /// position stays.
    pub fn decode_object_identifier(&mut self) -> (r: Result<ObjectIdentifier, EncodingError>)
        requires
            old(self).spec_position() <= old(self).spec_data().len(),
        ensures
            final(self).spec_data() == old(self).spec_data(),
            match object_identifier_decode(old(self).rest()) {
                Err(e) => r == Err::<ObjectIdentifier, EncodingError>(e) && final(self).spec_position() == old(self).spec_position(),
                Ok((v, k)) => r == Ok::<ObjectIdentifier, EncodingError>(v) && final(self).spec_position() == old(self).spec_position() + k,
            },
    {
        let (identifier, consumed) = decode_object_identifier(self.tail())?;
        proof {
            lemma_decoders_within(self.rest());
        }
        self.position = self.position + consumed;
        Ok(identifier)
    }

    /// Moves past the next application-tagged value, by its tag and the
    /// length the tag announces; a context tag is `InvalidTag`.
    pub fn skip_value(&mut self) -> (r: Result<(), EncodingError>)
        requires
            old(self).spec_position() <= old(self).spec_data().len(),
            tag_decode(old(self).rest()) matches Ok((t, c)) ==> old(self).step_fits(
                c + match tag_content_length(t) { Some(l) => l as int, None => 0 },
            ),
        ensures
            final(self).spec_data() == old(self).spec_data(),
            match tag_decode(old(self).rest()) {
                Err(e) => r == Err::<(), EncodingError>(e) && final(self).spec_position() == old(self).spec_position(),
                Ok((t, c)) => if t.class != TagClass::Application {
                    (r matches Err(EncodingError::InvalidTag)) && final(self).spec_position() == old(self).spec_position()
                } else {
                    r is Ok && final(self).spec_position() == old(self).spec_position() + c + match tag_content_length(t) {
                        Some(l) => l as int,
                        None => 0,
                    }
                },
            },
    {
        let (t, consumed) = Tag::decode(self.tail())?;
        if t.class != TagClass::Application {
            return Err(EncodingError::InvalidTag);
        }
        let length: usize = match t.content_length() {
            Some(l) => l as usize,
            None => 0,
        };
        self.position = self.position + consumed + length;
        Ok(())
    }

    /// The position of the next value.
    pub fn position(&self) -> (r: usize)
        ensures
            r == self.spec_position(),
    {
        self.position
    }

    /// Moves to `position`, which may be at most the data's length.
    pub fn set_position(&mut self, position: usize) -> (r: Result<(), EncodingError>)
        ensures
            final(self).spec_data() == old(self).spec_data(),
            position <= old(self).spec_data().len() ==> r is Ok && final(self).spec_position() == position,
            position > old(self).spec_data().len() ==> (r matches Err(EncodingError::ValueOutOfRange))
                && final(self).spec_position() == old(self).spec_position(),
    {
        if position > self.data.len() {
            return Err(EncodingError::ValueOutOfRange);
        }
        self.position = position;
        Ok(())
    }
}

/// The octets of one property entry: the identifier under context tag 0
/// as four octets, then the value, application-tagged, between opening
/// and closing context tags 1.
pub open spec fn property_entry_bytes(property_id: u32, value: Seq<u8>) -> Seq<u8> {
    context_tag_bytes(0, 4) + be_bytes4(property_id)
        + tag_bytes(Tag { number: 1, class: TagClass::Context, value: TagValue::Opening }) + value
        + tag_bytes(Tag { number: 1, class: TagClass::Context, value: TagValue::Closing })
}

/// An encoder of property identifier and value pairs.
pub struct PropertyArrayEncoder {
    buffer: Vec<u8>,
    count: usize,
}

impl PropertyArrayEncoder {
    /// The octets encoded so far.
    pub closed spec fn spec_data(&self) -> Seq<u8> {
        self.buffer@
    }

    /// The number of properties encoded so far.
    pub closed spec fn spec_count(&self) -> usize {
        self.count
    }

    /// Creates an empty encoder.
    pub fn new() -> (r: Self)
        ensures
            r.spec_data() == Seq::<u8>::empty(),
            r.spec_count() == 0,
    {
        PropertyArrayEncoder { buffer: Vec::new(), count: 0 }
    }

    /// Appends a property entry and counts it.
    pub fn add_property<T: EncodableValue>(&mut self, property_id: u32, value: T) -> (r: Result<(), EncodingError>)
        requires
            value.encodable(),
            old(self).spec_count() < usize::MAX,
        ensures
            r is Ok,
            final(self).spec_data() == old(self).spec_data() + property_entry_bytes(property_id, value.app_encoding()),
            final(self).spec_count() == old(self).spec_count() + 1,
    {
        let ghost d0 = self.buffer@;
        encode_context_tag(&mut self.buffer, 0, 4)?;
        let b = to_be_bytes4(property_id);
        append_bytes(&mut self.buffer, &b);
        encode_opening_tag(&mut self.buffer, 1)?;
        value.encode_to(ApplicationTagNumber::Null, &mut self.buffer)?;
        encode_closing_tag(&mut self.buffer, 1)?;
        self.count = self.count + 1;
        assert(self.buffer@ =~= d0 + property_entry_bytes(property_id, value.app_encoding()));
        Ok(())
    }

    /// The octets encoded so far.
    pub fn data(&self) -> (r: &[u8])
        ensures
            r@ == self.spec_data(),
    {
        self.buffer.as_slice()
    }

    /// The number of properties encoded so far.
    pub fn count(&self) -> (r: usize)
        ensures
            r == self.spec_count(),
    {
        self.count
    }

    /// Empties the encoder.
    pub fn clear(&mut self)
        ensures
            final(self).spec_data() == Seq::<u8>::empty(),
            final(self).spec_count() == 0,
    {
        self.buffer.clear();
        self.count = 0;
    }
}

impl Default for PropertyArrayEncoder {
    fn default() -> (r: Self)
        ensures
            r.spec_data() == Seq::<u8>::empty(),
            r.spec_count() == 0,
    {
        PropertyArrayEncoder::new()
    }
}

/// The context length announced for an enumerated error field: 1 octet up
/// to 0xFF, 2 up to 0xFFFF, else 4.
pub open spec fn error_field_length(v: u32) -> u32 {
    if v <= 0xFF {
        1
    } else if v <= 0xFFFF {
        2
    } else {
        4
    }
}

/// The octets of one error field: a context tag announcing the field's
/// length, then the value as an application-tagged enumerated.
pub open spec fn error_field_bytes(tag_number: u8, v: u32) -> Seq<u8> {
    context_tag_bytes(tag_number, error_field_length(v)) + app_primitive_bytes(9, unsigned_bytes(v as nat))
}

/// An encoder of error class and code pairs.
pub struct ErrorEncoder {
    buffer: Vec<u8>,
}

impl ErrorEncoder {
    /// The octets encoded so far.
    pub closed spec fn spec_data(&self) -> Seq<u8> {
        self.buffer@
    }

    /// Creates an empty encoder.
    pub fn new() -> (r: Self)
        ensures
            r.spec_data() == Seq::<u8>::empty(),
    {
        ErrorEncoder { buffer: Vec::new() }
    }

    /// Appends an error class (under context tag 0) and an error code
    /// (under context tag 1).
    pub fn encode_error(&mut self, error_class: u32, error_code: u32) -> (r: Result<(), EncodingError>)
        ensures
            r is Ok,
            final(self).spec_data() == old(self).spec_data() + error_field_bytes(0, error_class)
                + error_field_bytes(1, error_code),
    {
        let ghost d0 = self.buffer@;
        let class_len: usize = if error_class <= 0xFF {
            1
        } else if error_class <= 0xFFFF {
            2
        } else {
            4
        };
        encode_context_tag(&mut self.buffer, 0, class_len)?;
        let _ = encode_enumerated(&mut self.buffer, error_class);
        let code_len: usize = if error_code <= 0xFF {
            1
        } else if error_code <= 0xFFFF {
            2
        } else {
            4
        };
        encode_context_tag(&mut self.buffer, 1, code_len)?;
        let _ = encode_enumerated(&mut self.buffer, error_code);
        assert(self.buffer@ =~= d0 + error_field_bytes(0, error_class) + error_field_bytes(1, error_code));
        Ok(())
    }

    /// The octets encoded so far.
    pub fn data(&self) -> (r: &[u8])
        ensures
            r@ == self.spec_data(),
    {
        self.buffer.as_slice()
    }

    /// Empties the encoder.
    pub fn clear(&mut self)
        ensures
            final(self).spec_data() == Seq::<u8>::empty(),
    {
        self.buffer.clear();
    }
}

impl Default for ErrorEncoder {
    fn default() -> (r: Self)
        ensures
            r.spec_data() == Seq::<u8>::empty(),
    {
        ErrorEncoder::new()
    }
}

} // verus!
