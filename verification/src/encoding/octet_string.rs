//! BACnet Octet String values: an application tagged primitive whose
//! content octets are the value's octets, unchanged.

use vstd::prelude::*;

use super::{app_content, app_primitive_bytes, decode_app_content, encode_app_primitive, EncodingError};

verus! {

/// The application tag number of an Octet String.
pub const OCTET_STRING_TAG: u32 = 6;

/// Encode a BACnet octet string.
pub fn encode_octet_string(buffer: &mut Vec<u8>, value: &[u8]) -> (r: Result<(), EncodingError>)
    requires
        value@.len() <= 0xFFFF_FFFF,
    ensures
        r is Ok,
        final(buffer)@ == old(buffer)@ + app_primitive_bytes(OCTET_STRING_TAG, value@),
{
    encode_app_primitive(buffer, OCTET_STRING_TAG, value);
    Ok(())
}

/// Decode a BACnet octet string: its octets and the number of octets read.
/// A tag of another class or number is `InvalidTag`; a length running past
/// the end of `data` is `BufferUnderflow`.
pub fn decode_octet_string(data: &[u8]) -> (r: Result<(Vec<u8>, usize), EncodingError>)
    ensures
        match app_content(data@, OCTET_STRING_TAG) {
            Err(e) => r == Err::<(Vec<u8>, usize), EncodingError>(e),
            Ok((c, k)) => r matches Ok((v, n)) && v@ == c && n == k,
        },
{
    let (start, end) = decode_app_content(data, OCTET_STRING_TAG)?;
    let value = vstd::slice::slice_to_vec(vstd::slice::slice_subrange(data, start, end));
    Ok((value, end))
}

/// Decoding an encoded octet string gives back its octets.
pub proof fn lemma_octet_string_round_trip(value: Seq<u8>, rest: Seq<u8>)
    requires
        value.len() <= 0xFFFF_FFFF,
    ensures
        app_content(app_primitive_bytes(OCTET_STRING_TAG, value) + rest, OCTET_STRING_TAG)
            == Ok::<(Seq<u8>, usize), EncodingError>((value, app_primitive_bytes(OCTET_STRING_TAG, value).len() as usize)),
{
    super::lemma_app_content_round_trip(OCTET_STRING_TAG, value, rest);
}

} // verus!
