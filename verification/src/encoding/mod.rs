//! BACnet encoding and decoding of application and context tagged data.

pub mod advanced;
pub mod bit_string;
pub mod cache;
pub mod character_string;
pub mod date_time;
pub mod integer;
pub mod analysis;
pub mod object_identifier;
pub mod stream;
pub mod octet_string;
pub mod tag;

pub use character_string::{decode_character_string, encode_character_string};
pub use bit_string::{decode_bit_string, encode_bit_string};
pub use date_time::{decode_date, decode_time, encode_date, encode_time};
pub use octet_string::{decode_octet_string, encode_octet_string};
pub use analysis::ErrorPatterns;
pub use cache::{EncodingCache, EncodingConfig, ValidationLevel};
pub use stream::{DecodingStream, EncodableValue, EncodingStream, ErrorEncoder, PropertyArrayEncoder};
pub use integer::{
    decode_context_signed, decode_context_unsigned, decode_enumerated, decode_signed, decode_signed64, decode_unsigned,
    decode_unsigned64, encode_context_signed, encode_context_unsigned, encode_enumerated, encode_signed, encode_signed64,
    encode_unsigned, encode_unsigned64,
};
pub use object_identifier::{
    decode_context_object_id, decode_object_identifier, encode_context_object_id, encode_object_identifier,
};

use vstd::prelude::*;

use crate::text::{chars_of, concat};

use tag::{tag_decode, tag_bytes, Tag, TagClass, TagValue};

verus! {

/// Errors that can occur during encoding/decoding operations.
#[derive(Debug, Clone)]
pub enum EncodingError {
    /// Buffer overflow during encoding
    BufferOverflow,
    /// Buffer underflow during decoding
    BufferUnderflow,
    /// Invalid tag number encountered
    InvalidTag,
    /// Invalid length value
    InvalidLength,
    /// Unexpected end of data during decoding
    UnexpectedEndOfData,
    /// Invalid encoding format
    InvalidFormat(String),
    /// Value out of valid range
    ValueOutOfRange,
}

/// Appends `bytes` to the end of `buffer`.
pub fn append_bytes(buffer: &mut Vec<u8>, bytes: &[u8])
    ensures
        final(buffer)@ == old(buffer)@ + bytes@,
{
    let mut i: usize = 0;
    while i < bytes.len()
        invariant
            i <= bytes@.len(),
            buffer@ == old(buffer)@ + bytes@.subrange(0, i as int),
        decreases bytes@.len() - i,
    {
        buffer.push(bytes[i]);
        i = i + 1;
        assert(bytes@.subrange(0, i as int) == bytes@.subrange(0, i - 1 as int).push(bytes@[i - 1]));
    }
    assert(bytes@.subrange(0, i as int) == bytes@);
}

/// The content octets of an application-class primitive with tag `number`
/// at the start of `d`, with the number of octets up to their end, or the
/// error met (an opening or closing tag counts as empty content).
pub open spec fn app_content(d: Seq<u8>, number: u32) -> Result<(Seq<u8>, usize), EncodingError> {
    match tag_decode(d) {
        Err(e) => Err(e),
        Ok((t, n)) => if t.class != TagClass::Application || t.number != number {
            Err(EncodingError::InvalidTag)
        } else {
            let len: int = match t.value {
                TagValue::Primitive(l) => l as int,
                _ => 0,
            };
            if d.len() < n + len {
                Err(EncodingError::BufferUnderflow)
            } else {
                Ok((d.subrange(n as int, n + len), (n + len) as usize))
            }
        },
    }
}

/// A decoded tag never claims more octets than there are.
pub proof fn lemma_tag_decode_within(d: Seq<u8>)
    ensures
        tag_decode(d) matches Ok((t, n)) ==> 1 <= n <= d.len() && n <= 7 && t.number <= 254,
{
}

/// Locates the content octets of an application-class primitive with tag
/// `number` at the start of `data`: their start and end offsets.
pub fn decode_app_content(data: &[u8], number: u32) -> (r: Result<(usize, usize), EncodingError>)
    ensures
        match app_content(data@, number) {
            Err(e) => r == Err::<(usize, usize), EncodingError>(e),
            Ok((c, k)) => r matches Ok((start, end)) && start <= end && end == k && end <= data@.len()
                && data@.subrange(start as int, end as int) == c,
        },
{
    let (t, consumed) = Tag::decode(data)?;
    proof {
        lemma_tag_decode_within(data@);
    }
    if t.class != TagClass::Application || t.number != number {
        return Err(EncodingError::InvalidTag);
    }
    let length: u32 = match t.value {
        TagValue::Primitive(l) => l,
        _ => 0,
    };
    if (length as usize) > data.len() - consumed {
        return Err(EncodingError::BufferUnderflow);
    }
    Ok((consumed, consumed + length as usize))
}

/// The content octets of a context-class primitive with tag number
/// `expected` at the start of `d`, with the number of octets up to their
/// end, or the error met.
pub open spec fn context_content(d: Seq<u8>, expected: u8) -> Result<(Seq<u8>, usize), EncodingError> {
    match context_tag_decode(d) {
        Err(e) => Err(e),
        Ok((number, len, n)) => if number != expected {
            Err(EncodingError::InvalidTag)
        } else if d.len() < n + len {
            Err(EncodingError::BufferUnderflow)
        } else {
            Ok((d.subrange(n as int, n + len), (n + len) as usize))
        },
    }
}

/// What decoding a primitive context tag gives: its number, its content
/// length and the octets the tag occupies.
pub open spec fn context_tag_decode(d: Seq<u8>) -> Result<(u8, usize, usize), EncodingError> {
    match tag_decode(d) {
        Err(e) => Err(e),
        Ok((t, n)) => if t.class != TagClass::Context {
            Err(EncodingError::InvalidTag)
        } else {
            match t.value {
                TagValue::Primitive(l) => Ok((t.number as u8, l as usize, n)),
                _ => Err(EncodingError::InvalidTag),
            }
        },
    }
}

/// Encode a context-specific primitive tag announcing `length` content octets.
pub fn encode_context_tag(buffer: &mut Vec<u8>, tag_number: u8, length: usize) -> (r: Result<(), EncodingError>)
    ensures
        tag_number <= 254 ==> r is Ok && final(buffer)@ == old(buffer)@ + tag_bytes(
            Tag { number: tag_number as u32, class: TagClass::Context, value: TagValue::Primitive(length as u32) },
        ),
        tag_number > 254 ==> (r matches Err(EncodingError::ValueOutOfRange)) && final(buffer)@ == old(buffer)@,
{
    let t = Tag::primitive(TagClass::Context, tag_number as u32, length as u32)?;
    t.encode(buffer)
}

/// Encode the opening tag of a constructed context-specific encoding.
pub fn encode_opening_tag(buffer: &mut Vec<u8>, tag_number: u8) -> (r: Result<(), EncodingError>)
    ensures
        tag_number <= 254 ==> r is Ok && final(buffer)@ == old(buffer)@ + tag_bytes(
            Tag { number: tag_number as u32, class: TagClass::Context, value: TagValue::Opening },
        ),
        tag_number > 254 ==> (r matches Err(EncodingError::ValueOutOfRange)) && final(buffer)@ == old(buffer)@,
{
    let t = Tag::opening(tag_number as u32)?;
    t.encode(buffer)
}

/// Encode the closing tag of a constructed context-specific encoding.
pub fn encode_closing_tag(buffer: &mut Vec<u8>, tag_number: u8) -> (r: Result<(), EncodingError>)
    ensures
        tag_number <= 254 ==> r is Ok && final(buffer)@ == old(buffer)@ + tag_bytes(
            Tag { number: tag_number as u32, class: TagClass::Context, value: TagValue::Closing },
        ),
        tag_number > 254 ==> (r matches Err(EncodingError::ValueOutOfRange)) && final(buffer)@ == old(buffer)@,
{
    let t = Tag::closing(tag_number as u32)?;
    t.encode(buffer)
}

/// Decode a primitive context-specific tag: its number, content length and
/// the octets it occupies. Application tags and opening or closing tags are
/// refused.
pub fn decode_context_tag(data: &[u8]) -> (r: Result<(u8, usize, usize), EncodingError>)
    ensures
        r == context_tag_decode(data@),
{
    let (t, consumed) = Tag::decode(data)?;
    proof {
        lemma_tag_decode_within(data@);
    }
    if t.class != TagClass::Context {
        return Err(EncodingError::InvalidTag);
    }
    match t.value {
        TagValue::Primitive(length) => Ok((t.number as u8, length as usize, consumed)),
        _ => Err(EncodingError::InvalidTag),
    }
}

/// Locates the content octets of a context-class primitive tagged
/// `expected` at the start of `data`: their start and end offsets.
pub fn decode_context_content(data: &[u8], expected: u8) -> (r: Result<(usize, usize), EncodingError>)
    ensures
        match context_content(data@, expected) {
            Err(e) => r == Err::<(usize, usize), EncodingError>(e),
            Ok((c, k)) => r matches Ok((start, end)) && start <= end && end == k && end <= data@.len()
                && data@.subrange(start as int, end as int) == c,
        },
{
    let (tag_number, length, consumed) = decode_context_tag(data)?;
    proof {
        lemma_tag_decode_within(data@);
    }
    if tag_number != expected {
        return Err(EncodingError::InvalidTag);
    }
    if length > data.len() - consumed {
        return Err(EncodingError::BufferUnderflow);
    }
    Ok((consumed, consumed + length))
}

/// The octets of an application-tagged primitive: the tag, then the content.
pub open spec fn app_primitive_bytes(number: u32, content: Seq<u8>) -> Seq<u8> {
    tag_bytes(
        Tag { number, class: TagClass::Application, value: TagValue::Primitive(content.len() as u32) },
    ) + content
}

/// The octets of a context-tagged primitive: the tag, then the content.
pub open spec fn context_primitive_bytes(tag_number: u8, content: Seq<u8>) -> Seq<u8> {
    tag_bytes(
        Tag { number: tag_number as u32, class: TagClass::Context, value: TagValue::Primitive(content.len() as u32) },
    ) + content
}

/// Writes an application tag with the given number and `content` after it.
pub fn encode_app_primitive(buffer: &mut Vec<u8>, number: u32, content: &[u8])
    requires
        number <= 254,
        content@.len() <= 0xFFFF_FFFF,
    ensures
        final(buffer)@ == old(buffer)@ + app_primitive_bytes(number, content@),
{
    let t = Tag {
        number,
        class: TagClass::Application,
        value: TagValue::Primitive(content.len() as u32),
    };
    let _ = t.encode(buffer);
    append_bytes(buffer, content);
    assert(final(buffer)@ == old(buffer)@ + app_primitive_bytes(number, content@));
}

/// Reading back an application-tagged primitive finds its content again.
pub proof fn lemma_app_content_round_trip(number: u32, content: Seq<u8>, rest: Seq<u8>)
    requires
        number <= 254,
        content.len() <= 0xFFFF_FFFF,
    ensures
        app_content(app_primitive_bytes(number, content) + rest, number) == Ok::<(Seq<u8>, usize), EncodingError>(
            (content, app_primitive_bytes(number, content).len() as usize),
        ),
{
    let t = Tag { number, class: TagClass::Application, value: TagValue::Primitive(content.len() as u32) };
    let tb = tag_bytes(t);
    let d = app_primitive_bytes(number, content) + rest;
    assert(d == tb + (content + rest));
    tag::lemma_tag_round_trip(t, content + rest);
    assert(d.subrange(tb.len() as int, (tb.len() + content.len()) as int) == content);
}

/// Reading back a context-tagged primitive finds its content again.
pub proof fn lemma_context_content_round_trip(tag_number: u8, content: Seq<u8>, rest: Seq<u8>)
    requires
        tag_number <= 254,
        content.len() <= 0xFFFF_FFFF,
    ensures
        context_content(context_primitive_bytes(tag_number, content) + rest, tag_number) == Ok::<(Seq<u8>, usize), EncodingError>(
            (content, context_primitive_bytes(tag_number, content).len() as usize),
        ),
{
    let t = Tag { number: tag_number as u32, class: TagClass::Context, value: TagValue::Primitive(content.len() as u32) };
    let tb = tag_bytes(t);
    let d = context_primitive_bytes(tag_number, content) + rest;
    assert(d == tb + (content + rest));
    tag::lemma_tag_round_trip(t, content + rest);
    assert(d.subrange(tb.len() as int, (tb.len() + content.len()) as int) == content);
}

/// The four content octets of an application-tagged primitive with tag
/// `number` at the start of `d`, with the number of octets up to their end.
/// A tag of another class or number is `InvalidTag`; a length other than
/// four, or fewer than four octets after the tag, is `InvalidLength`.
pub open spec fn fixed4_content(d: Seq<u8>, number: u32) -> Result<(Seq<u8>, usize), EncodingError> {
    match tag_decode(d) {
        Err(e) => Err(e),
        Ok((t, n)) => if t.class != TagClass::Application || t.number != number {
            Err(EncodingError::InvalidTag)
        } else if tag::tag_content_length(t) != Some(4u32) || d.len() < n + 4 {
            Err(EncodingError::InvalidLength)
        } else {
            Ok((d.subrange(n as int, n + 4), (n + 4) as usize))
        },
    }
}

/// Encodes an application-tagged primitive with exactly four raw content
/// octets.
pub fn encode_fixed4(buffer: &mut Vec<u8>, number: u32, bytes: [u8; 4])
    requires
        number <= 254,
    ensures
        final(buffer)@ == old(buffer)@ + app_primitive_bytes(number, bytes@),
{
    encode_app_primitive(buffer, number, &bytes);
}

/// Decodes an application-tagged primitive with exactly four raw content
/// octets, checking the tag class, number and content length.
pub fn decode_fixed4(data: &[u8], number: u32) -> (r: Result<([u8; 4], usize), EncodingError>)
    ensures
        match fixed4_content(data@, number) {
            Err(e) => r == Err::<([u8; 4], usize), EncodingError>(e),
            Ok((c, k)) => r matches Ok((b, n)) && b@ == c && n == k,
        },
{
    let (t, consumed) = Tag::decode(data)?;
    proof {
        lemma_tag_decode_within(data@);
    }
    if t.class != TagClass::Application || t.number != number {
        return Err(EncodingError::InvalidTag);
    }
    if t.content_length() != Some(4u32) || data.len() - consumed < 4 {
        return Err(EncodingError::InvalidLength);
    }
    let bytes: [u8; 4] = [data[consumed], data[consumed + 1], data[consumed + 2], data[consumed + 3]];
    assert(bytes@ == data@.subrange(consumed as int, consumed + 4));
    Ok((bytes, consumed + 4))
}

/// What decoding an application primitive of exactly `width` content
/// octets from the start of `d` gives: another class or tag number is
/// `InvalidTag`, another content length `InvalidLength`, too few octets
/// `BufferUnderflow`; else the content and the octets taken.
pub open spec fn fixed_content(d: Seq<u8>, number: u32, width: usize) -> Result<(Seq<u8>, usize), EncodingError> {
    match tag_decode(d) {
        Err(e) => Err(e),
        Ok((t, n)) => if t.class != TagClass::Application || t.number != number {
            Err(EncodingError::InvalidTag)
        } else if width > 0xFFFF_FFFF || tag::tag_content_length(t) != Some(width as u32) {
            Err(EncodingError::InvalidLength)
        } else if d.len() < n + width {
            Err(EncodingError::BufferUnderflow)
        } else {
            Ok((d.subrange(n as int, n + width), (n + width) as usize))
        },
    }
}

/// Decodes an application primitive of exactly `width` content octets
/// (the framing of reals and doubles): its content and the octets taken.
pub fn decode_fixed(data: &[u8], number: u32, width: usize) -> (r: Result<(Vec<u8>, usize), EncodingError>)
    ensures
        match fixed_content(data@, number, width) {
            Err(e) => r == Err::<(Vec<u8>, usize), EncodingError>(e),
            Ok((c, k)) => r matches Ok((b, n)) && b@ == c && n == k,
        },
{
    let (t, consumed) = Tag::decode(data)?;
    proof {
        lemma_tag_decode_within(data@);
    }
    if t.class != TagClass::Application || t.number != number {
        return Err(EncodingError::InvalidTag);
    }
    if width > 0xFFFF_FFFF || t.content_length() != Some(width as u32) {
        return Err(EncodingError::InvalidLength);
    }
    if data.len() - consumed < width {
        return Err(EncodingError::BufferUnderflow);
    }
    let part = vstd::slice::slice_subrange(data, consumed, consumed + width);
    Ok((vstd::slice::slice_to_vec(part), consumed + width))
}

/// Reading back a four-octet application primitive finds its octets again.
pub proof fn lemma_fixed4_round_trip(number: u32, content: Seq<u8>, rest: Seq<u8>)
    requires
        number <= 254,
        content.len() == 4,
    ensures
        fixed4_content(app_primitive_bytes(number, content) + rest, number) == Ok::<(Seq<u8>, usize), EncodingError>(
            (content, app_primitive_bytes(number, content).len() as usize),
        ),
{
    let t = Tag { number, class: TagClass::Application, value: TagValue::Primitive(4) };
    let tb = tag_bytes(t);
    let d = app_primitive_bytes(number, content) + rest;
    assert(d == tb + (content + rest));
    tag::lemma_tag_round_trip(t, content + rest);
    assert(d.subrange(tb.len() as int, (tb.len() + 4) as int) == content);
}

/// The four big-endian octets of a 32-bit value.
pub open spec fn be_bytes4(v: u32) -> Seq<u8> {
    seq![(v / 16777216) as u8, ((v / 65536) % 256) as u8, ((v / 256) % 256) as u8, (v % 256) as u8]
}

/// The four big-endian octets of `v`.
pub fn to_be_bytes4(v: u32) -> (r: [u8; 4])
    ensures
        r@ == be_bytes4(v),
        tag::be32(r@[0], r@[1], r@[2], r@[3]) == v,
{
    let r: [u8; 4] = [(v / 16777216) as u8, ((v / 65536) % 256) as u8, ((v / 256) % 256) as u8, (v % 256) as u8];
    assert(r@ == be_bytes4(v));
    r
}

/// Splitting a big-endian 32-bit value gives back its four octets.
pub proof fn lemma_be32_split(a: u8, b: u8, c: u8, d: u8)
    ensures
        be_bytes4(tag::be32(a, b, c, d)) == seq![a, b, c, d],
{
    let v: int = (a as int) * 16777216 + (b as int) * 65536 + (c as int) * 256 + (d as int);
    assert(v / 16777216 == a && (v / 65536) % 256 == b && (v / 256) % 256 == c && v % 256 == d) by (nonlinear_arith)
        requires
            v == (a as int) * 16777216 + (b as int) * 65536 + (c as int) * 256 + (d as int),
            0 <= a < 256,
            0 <= b < 256,
            0 <= c < 256,
            0 <= d < 256,
    ;
    assert(be_bytes4(tag::be32(a, b, c, d)) =~= seq![a, b, c, d]);
}

/// Joining the four big-endian octets of a value gives it back.
pub proof fn lemma_be_bytes4_join(v: u32)
    ensures
        tag::be32(be_bytes4(v)[0], be_bytes4(v)[1], be_bytes4(v)[2], be_bytes4(v)[3]) == v,
{
    let x: int = v as int;
    assert((x / 16777216) * 16777216 + ((x / 65536) % 256) * 65536 + ((x / 256) % 256) * 256 + x % 256 == x) by (nonlinear_arith)
        requires
            0 <= x < 0x1_0000_0000,
    ;
}

/// The 32-bit value of four big-endian octets.
pub fn from_be_bytes4(b: [u8; 4]) -> (r: u32)
    ensures
        r == tag::be32(b@[0], b@[1], b@[2], b@[3]),
        be_bytes4(r) == b@,
{
    let r: u32 = (b[0] as u32) * 16777216 + (b[1] as u32) * 65536 + (b[2] as u32) * 256 + (b[3] as u32);
    proof {
        lemma_be32_split(b[0], b[1], b[2], b[3]);
        assert(b@ =~= seq![b@[0], b@[1], b@[2], b@[3]]);
    }
    r
}

/// The application tag number of a Boolean.
pub const BOOLEAN_TAG: u32 = 1;

/// The octet of an application-tagged Boolean: the value sits in the
/// tag's length field, with no content octets.
pub open spec fn boolean_bytes(value: bool) -> Seq<u8> {
    tag_bytes(Tag { number: BOOLEAN_TAG, class: TagClass::Application, value: TagValue::Primitive(if value { 1 } else { 0 }) })
}

/// What decoding an application-tagged Boolean from the start of `d`
/// gives: a length field of 0 is false and 1 true; any other length is
/// `InvalidLength`, and an opening or closing tag is `InvalidTag`.
pub open spec fn boolean_decode(d: Seq<u8>) -> Result<(bool, usize), EncodingError> {
    match tag_decode(d) {
        Err(e) => Err(e),
        Ok((t, n)) => if t.class != TagClass::Application || t.number != BOOLEAN_TAG {
            Err(EncodingError::InvalidTag)
        } else {
            match tag::tag_content_length(t) {
                None => Err(EncodingError::InvalidTag),
                Some(l) => if l == 0 {
                    Ok((false, n))
                } else if l == 1 {
                    Ok((true, n))
                } else {
                    Err(EncodingError::InvalidLength)
                },
            }
        },
    }
}

/// Encode a BACnet boolean value.
pub fn encode_boolean(buffer: &mut Vec<u8>, value: bool) -> (r: Result<(), EncodingError>)
    ensures
        r is Ok,
        final(buffer)@ == old(buffer)@ + boolean_bytes(value),
{
    let t = Tag { number: BOOLEAN_TAG, class: TagClass::Application, value: TagValue::Primitive(if value { 1 } else { 0 }) };
    t.encode(buffer)
}

/// Decode a BACnet boolean value and the number of octets read.
pub fn decode_boolean(data: &[u8]) -> (r: Result<(bool, usize), EncodingError>)
    ensures
        r == boolean_decode(data@),
{
    let (t, consumed) = Tag::decode(data)?;
    if t.class != TagClass::Application || t.number != BOOLEAN_TAG {
        return Err(EncodingError::InvalidTag);
    }
    let length = match t.content_length() {
        Some(l) => l,
        None => {
            return Err(EncodingError::InvalidTag);
        },
    };
    if length == 0 {
        Ok((false, consumed))
    } else if length == 1 {
        Ok((true, consumed))
    } else {
        Err(EncodingError::InvalidLength)
    }
}

/// Decoding an encoded Boolean gives back its value.
pub proof fn lemma_boolean_round_trip(value: bool, rest: Seq<u8>)
    ensures
        boolean_decode(boolean_bytes(value) + rest) == Ok::<(bool, usize), EncodingError>((value, boolean_bytes(value).len() as usize)),
{
    let t = Tag { number: BOOLEAN_TAG, class: TagClass::Application, value: TagValue::Primitive(if value { 1 } else { 0 }) };
    tag::lemma_tag_round_trip(t, rest);
}

/// The octets of a context-tagged Boolean: one content octet, 0 or 1.
pub open spec fn context_boolean_bytes(value: bool, tag_number: u8) -> Seq<u8> {
    context_primitive_bytes(tag_number, seq![if value { 1u8 } else { 0u8 }])
}

/// What decoding a context-tagged Boolean tagged `expected` from the
/// start of `d` gives: another tag number is `InvalidTag`, a length other
/// than one `InvalidLength`, a missing octet `BufferUnderflow`, and a
/// content octet other than 0 or 1 `ValueOutOfRange`.
pub open spec fn context_boolean_decode(d: Seq<u8>, expected: u8) -> Result<(bool, usize), EncodingError> {
    match context_tag_decode(d) {
        Err(e) => Err(e),
        Ok((number, len, n)) => if number != expected {
            Err(EncodingError::InvalidTag)
        } else if len != 1 {
            Err(EncodingError::InvalidLength)
        } else if d.len() < n + 1 {
            Err(EncodingError::BufferUnderflow)
        } else if d[n as int] == 0 {
            Ok((false, (n + 1) as usize))
        } else if d[n as int] == 1 {
            Ok((true, (n + 1) as usize))
        } else {
            Err(EncodingError::ValueOutOfRange)
        },
    }
}

/// Encode a context-specific Boolean; a tag number above 254 is refused.
pub fn encode_context_boolean(value: bool, tag_number: u8) -> (r: Result<Vec<u8>, EncodingError>)
    ensures
        tag_number <= 254 ==> (r matches Ok(v) && v@ == context_boolean_bytes(value, tag_number)),
        tag_number > 254 ==> r matches Err(EncodingError::ValueOutOfRange),
{
    let mut buffer: Vec<u8> = Vec::new();
    encode_context_tag(&mut buffer, tag_number, 1)?;
    buffer.push(if value { 1u8 } else { 0u8 });
    Ok(buffer)
}

/// Decode a context-specific Boolean tagged `expected_tag`.
pub fn decode_context_boolean(data: &[u8], expected_tag: u8) -> (r: Result<(bool, usize), EncodingError>)
    ensures
        r == context_boolean_decode(data@, expected_tag),
{
    let (tag_number, length, tag_consumed) = decode_context_tag(data)?;
    proof {
        lemma_tag_decode_within(data@);
    }
    if tag_number != expected_tag {
        return Err(EncodingError::InvalidTag);
    }
    if length != 1 {
        return Err(EncodingError::InvalidLength);
    }
    if data.len() - tag_consumed < 1 {
        return Err(EncodingError::BufferUnderflow);
    }
    let octet = data[tag_consumed];
    if octet == 0 {
        Ok((false, tag_consumed + 1))
    } else if octet == 1 {
        Ok((true, tag_consumed + 1))
    } else {
        Err(EncodingError::ValueOutOfRange)
    }
}

/// Decoding an encoded context Boolean with its own tag number gives back
/// its value.
pub proof fn lemma_context_boolean_round_trip(value: bool, tag_number: u8, rest: Seq<u8>)
    requires
        tag_number <= 254,
    ensures
        context_boolean_decode(context_boolean_bytes(value, tag_number) + rest, tag_number)
            == Ok::<(bool, usize), EncodingError>((value, context_boolean_bytes(value, tag_number).len() as usize)),
{
    let c = seq![if value { 1u8 } else { 0u8 }];
    let t = Tag { number: tag_number as u32, class: TagClass::Context, value: TagValue::Primitive(1) };
    let d = context_boolean_bytes(value, tag_number) + rest;
    assert(d == tag_bytes(t) + (c + rest));
    tag::lemma_tag_round_trip(t, c + rest);
    let n: int = tag_bytes(t).len() as int;
    assert(d[n] == c[0]);
}

/// The text of an encoding error.
pub open spec fn encoding_error_text(e: EncodingError) -> Seq<char> {
    match e {
        EncodingError::BufferOverflow => "Buffer overflow during encoding"@,
        EncodingError::BufferUnderflow => "Buffer underflow during decoding"@,
        EncodingError::InvalidTag => "Invalid tag number encountered"@,
        EncodingError::InvalidLength => "Invalid length value"@,
        EncodingError::UnexpectedEndOfData => "Unexpected end of data"@,
        EncodingError::InvalidFormat(msg) => "Invalid format: "@ + msg@,
        EncodingError::ValueOutOfRange => "Value out of valid range"@,
    }
}

impl EncodingError {
    /// The text of this error.
    pub fn to_string(&self) -> (r: String)
        ensures
            r@ == encoding_error_text(*self),
    {
        match self {
            EncodingError::BufferOverflow => chars_of("Buffer overflow during encoding"),
            EncodingError::BufferUnderflow => chars_of("Buffer underflow during decoding"),
            EncodingError::InvalidTag => chars_of("Invalid tag number encountered"),
            EncodingError::InvalidLength => chars_of("Invalid length value"),
            EncodingError::UnexpectedEndOfData => chars_of("Unexpected end of data"),
            EncodingError::InvalidFormat(msg) => concat(chars_of("Invalid format: "), msg.as_str()),
            EncodingError::ValueOutOfRange => chars_of("Value out of valid range"),
        }
    }
}

} // verus!
