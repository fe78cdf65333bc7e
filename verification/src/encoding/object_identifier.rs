//! BACnet Object Identifier values: primitives of exactly four content
//! octets holding the packed 32-bit identifier (10 bits of object type,
//! 22 bits of instance), most significant octet first, with either an
//! application tag or a context tag around them.

use vstd::prelude::*;

use super::{
    app_primitive_bytes, append_bytes, be_bytes4, context_primitive_bytes, decode_context_tag,
    decode_fixed4, encode_context_tag, encode_fixed4, fixed4_content, from_be_bytes4, to_be_bytes4,
    EncodingError, context_tag_decode,
};
use crate::object::{object_id_packable, object_id_packed, object_id_unpacked, ObjectIdentifier};
use super::tag::be32;

verus! {

/// The application tag number of an Object Identifier.
pub const OBJECT_IDENTIFIER_TAG: u32 = 12;

/// The octets of an application-tagged object identifier.
pub open spec fn object_identifier_bytes(id: ObjectIdentifier) -> Seq<u8> {
    app_primitive_bytes(OBJECT_IDENTIFIER_TAG, be_bytes4(object_id_packed(id)))
}

/// The octets of a context-tagged object identifier.
pub open spec fn context_object_id_bytes(id: ObjectIdentifier, tag_number: u8) -> Seq<u8> {
    context_primitive_bytes(tag_number, be_bytes4(object_id_packed(id)))
}

/// What decoding an application-tagged object identifier from the start
/// of `d` gives.
pub open spec fn object_identifier_decode(d: Seq<u8>) -> Result<(ObjectIdentifier, usize), EncodingError> {
    match fixed4_content(d, OBJECT_IDENTIFIER_TAG) {
        Err(e) => Err(e),
        Ok((c, n)) => Ok((object_id_unpacked(be32(c[0], c[1], c[2], c[3])), n)),
    }
}

/// What decoding a context-tagged object identifier with tag number
/// `expected` from the start of `d` gives: another tag number is
/// `InvalidTag`, a length other than four `InvalidLength`, and too few
/// octets `BufferUnderflow`.
pub open spec fn context_object_id_decode(d: Seq<u8>, expected: u8) -> Result<(ObjectIdentifier, usize), EncodingError> {
    match context_tag_decode(d) {
        Err(e) => Err(e),
        Ok((number, len, n)) => if number != expected {
            Err(EncodingError::InvalidTag)
        } else if len != 4 {
            Err(EncodingError::InvalidLength)
        } else if d.len() < n + 4 {
            Err(EncodingError::BufferUnderflow)
        } else {
            Ok((object_id_unpacked(be32(d[n as int], d[n + 1], d[n + 2], d[n + 3])), (n + 4) as usize))
        },
    }
}

/// Packs an object identifier into its four big-endian content octets.
fn pack(object_id: ObjectIdentifier) -> (r: Result<[u8; 4], EncodingError>)
    ensures
        object_id_packable(object_id) <==> r is Ok,
        r matches Ok(b) ==> b@ == be_bytes4(object_id_packed(object_id)),
        !object_id_packable(object_id) ==> r matches Err(EncodingError::ValueOutOfRange),
{
    let value = object_id.to_u32()?;
    Ok(to_be_bytes4(value))
}

/// Encode a BACnet object identifier. An identifier whose instance is
/// above 4194303 (or whose type number is above 1023) is refused with
/// `ValueOutOfRange`, and nothing is written.
pub fn encode_object_identifier(buffer: &mut Vec<u8>, object_id: ObjectIdentifier) -> (r: Result<(), EncodingError>)
    ensures
        object_id_packable(object_id) ==> r is Ok && final(buffer)@ == old(buffer)@ + object_identifier_bytes(object_id),
        !object_id_packable(object_id) ==> (r matches Err(EncodingError::ValueOutOfRange)) && final(buffer)@ == old(buffer)@,
{
    let bytes = pack(object_id)?;
    encode_fixed4(buffer, OBJECT_IDENTIFIER_TAG, bytes);
    Ok(())
}

/// Decode a BACnet object identifier.
pub fn decode_object_identifier(data: &[u8]) -> (r: Result<(ObjectIdentifier, usize), EncodingError>)
    ensures
        r == object_identifier_decode(data@),
{
    let (bytes, consumed) = decode_fixed4(data, OBJECT_IDENTIFIER_TAG)?;
    Ok((ObjectIdentifier::from_u32(from_be_bytes4(bytes)), consumed))
}

/// Encode a context-specific object identifier. A tag number above 254
/// or an identifier that does not pack is refused.
pub fn encode_context_object_id(object_id: ObjectIdentifier, tag_number: u8) -> (r: Result<Vec<u8>, EncodingError>)
    ensures
        object_id_packable(object_id) && tag_number <= 254 <==> r is Ok,
        r matches Ok(v) ==> v@ == context_object_id_bytes(object_id, tag_number),
        r is Err ==> r matches Err(EncodingError::ValueOutOfRange),
{
    let bytes = pack(object_id)?;
    let mut buffer: Vec<u8> = Vec::new();
    encode_context_tag(&mut buffer, tag_number, 4)?;
    append_bytes(&mut buffer, &bytes);
    Ok(buffer)
}

/// Decode a context-specific object identifier tagged `expected_tag`.
pub fn decode_context_object_id(data: &[u8], expected_tag: u8) -> (r: Result<(ObjectIdentifier, usize), EncodingError>)
    ensures
        r == context_object_id_decode(data@, expected_tag),
{
    let (tag_number, length, tag_consumed) = decode_context_tag(data)?;
    proof {
        super::lemma_tag_decode_within(data@);
    }
    if tag_number != expected_tag {
        return Err(EncodingError::InvalidTag);
    }
    if length != 4 {
        return Err(EncodingError::InvalidLength);
    }
    if data.len() - tag_consumed < 4 {
        return Err(EncodingError::BufferUnderflow);
    }
    let bytes: [u8; 4] = [data[tag_consumed], data[tag_consumed + 1], data[tag_consumed + 2], data[tag_consumed + 3]];
    Ok((ObjectIdentifier::from_u32(from_be_bytes4(bytes)), tag_consumed + 4))
}

/// Decoding an encoded object identifier gives back its packed value,
/// unpacked: the identifier itself where its type is in canonical form.
pub proof fn lemma_object_identifier_round_trip(id: ObjectIdentifier, rest: Seq<u8>)
    requires
        object_id_packable(id),
    ensures
        object_identifier_decode(object_identifier_bytes(id) + rest) == Ok::<(ObjectIdentifier, usize), EncodingError>(
            (object_id_unpacked(object_id_packed(id)), object_identifier_bytes(id).len() as usize),
        ),
        crate::object::object_type_canonical(id.object_type) ==> object_id_unpacked(object_id_packed(id)) == id,
{
    let c = be_bytes4(object_id_packed(id));
    super::lemma_fixed4_round_trip(OBJECT_IDENTIFIER_TAG, c, rest);
    super::lemma_be_bytes4_join(object_id_packed(id));
    if crate::object::object_type_canonical(id.object_type) {
        crate::object::lemma_object_id_round_trip(id);
    }
}

/// Decoding a context-tagged object identifier with its own tag number
/// gives back the packed value, unpacked.
pub proof fn lemma_context_object_id_round_trip(id: ObjectIdentifier, tag_number: u8, rest: Seq<u8>)
    requires
        object_id_packable(id),
        tag_number <= 254,
    ensures
        context_object_id_decode(context_object_id_bytes(id, tag_number) + rest, tag_number)
            == Ok::<(ObjectIdentifier, usize), EncodingError>(
            (object_id_unpacked(object_id_packed(id)), context_object_id_bytes(id, tag_number).len() as usize),
        ),
{
    let c = be_bytes4(object_id_packed(id));
    let d = context_object_id_bytes(id, tag_number) + rest;
    let t = super::tag::Tag { number: tag_number as u32, class: super::tag::TagClass::Context, value: super::tag::TagValue::Primitive(4) };
    super::tag::lemma_tag_round_trip(t, c + rest);
    assert(d == super::tag::tag_bytes(t) + (c + rest));
    let n: int = super::tag::tag_bytes(t).len() as int;
    assert(context_tag_decode(d) == Ok::<(u8, usize, usize), EncodingError>((tag_number, 4usize, n as usize)));
    assert(d[n] == c[0] && d[n + 1] == c[1] && d[n + 2] == c[2] && d[n + 3] == c[3]);
    super::lemma_be_bytes4_join(object_id_packed(id));
}

} // verus!
