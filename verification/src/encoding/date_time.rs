//! BACnet Date and Time values: application tagged primitives of exactly
//! four content octets, one per field. `0xFF` in any field means
//! "unspecified". A date's first octet is the year minus 1900; this crate
//! holds the calendar year itself (1900-2154), or 255 for an unspecified
//! year, and converts between the two.

use vstd::prelude::*;

use super::{app_primitive_bytes, decode_fixed4, encode_fixed4, fixed4_content, EncodingError};

verus! {

/// The sentinel for an unspecified date or time field.
pub const UNSPECIFIED: u8 = 0xFF;

/// The application tag number of a Date.
pub const DATE_TAG: u32 = 10;

/// The application tag number of a Time.
pub const TIME_TAG: u32 = 11;

/// The wire octet for a calendar year: 255 stays 255 (unspecified),
/// any other year is stored as its offset from 1900, modulo 256.
pub open spec fn date_year_octet(year: u16) -> u8 {
    if year == 255 {
        255
    } else {
        ((year - 1900) % 256) as u8
    }
}

/// The calendar year read from a wire octet (255 is unspecified).
pub open spec fn date_year_of_octet(o: u8) -> u16 {
    if o == 255 {
        255
    } else {
        (1900 + o) as u16
    }
}

/// The octets of a date value.
pub open spec fn date_bytes(year: u16, month: u8, day: u8, weekday: u8) -> Seq<u8> {
    app_primitive_bytes(DATE_TAG, seq![date_year_octet(year), month, day, weekday])
}

/// The octets of a time value.
pub open spec fn time_bytes(hour: u8, minute: u8, second: u8, hundredths: u8) -> Seq<u8> {
    app_primitive_bytes(TIME_TAG, seq![hour, minute, second, hundredths])
}

/// What decoding a date from the start of `d` gives.
pub open spec fn date_decode(d: Seq<u8>) -> Result<((u16, u8, u8, u8), usize), EncodingError> {
    match fixed4_content(d, DATE_TAG) {
        Err(e) => Err(e),
        Ok((c, n)) => Ok(((date_year_of_octet(c[0]), c[1], c[2], c[3]), n)),
    }
}

/// What decoding a time from the start of `d` gives.
pub open spec fn time_decode(d: Seq<u8>) -> Result<((u8, u8, u8, u8), usize), EncodingError> {
    match fixed4_content(d, TIME_TAG) {
        Err(e) => Err(e),
        Ok((c, n)) => Ok(((c[0], c[1], c[2], c[3]), n)),
    }
}

/// Encode a BACnet date. `year` is the calendar year (1900-2154), or 255
/// for "unspecified"; a year below 1900 other than 255 cannot be encoded.
pub fn encode_date(buffer: &mut Vec<u8>, year: u16, month: u8, day: u8, weekday: u8) -> (r: Result<(), EncodingError>)
    requires
        year == 255 || year >= 1900,
    ensures
        r is Ok,
        final(buffer)@ == old(buffer)@ + date_bytes(year, month, day, weekday),
{
    let year_octet: u8 = if year == UNSPECIFIED as u16 {
        UNSPECIFIED
    } else {
        ((year - 1900) % 256) as u8
    };
    encode_fixed4(buffer, DATE_TAG, [year_octet, month, day, weekday]);
    assert([year_octet, month, day, weekday]@ == seq![date_year_octet(year), month, day, weekday]);
    Ok(())
}

/// Decode a BACnet date: the calendar year (255 if unspecified), month,
/// day and weekday, with the number of octets read.
pub fn decode_date(data: &[u8]) -> (r: Result<((u16, u8, u8, u8), usize), EncodingError>)
    ensures
        r == date_decode(data@),
{
    let (b, consumed) = decode_fixed4(data, DATE_TAG)?;
    let year: u16 = if b[0] == UNSPECIFIED {
        UNSPECIFIED as u16
    } else {
        1900 + b[0] as u16
    };
    Ok(((year, b[1], b[2], b[3]), consumed))
}

/// Encode a BACnet time.
pub fn encode_time(buffer: &mut Vec<u8>, hour: u8, minute: u8, second: u8, hundredths: u8) -> (r: Result<(), EncodingError>)
    ensures
        r is Ok,
        final(buffer)@ == old(buffer)@ + time_bytes(hour, minute, second, hundredths),
{
    encode_fixed4(buffer, TIME_TAG, [hour, minute, second, hundredths]);
    assert([hour, minute, second, hundredths]@ == seq![hour, minute, second, hundredths]);
    Ok(())
}

/// Decode a BACnet time: hour, minute, second and hundredths, with the
/// number of octets read.
pub fn decode_time(data: &[u8]) -> (r: Result<((u8, u8, u8, u8), usize), EncodingError>)
    ensures
        r == time_decode(data@),
{
    let (b, consumed) = decode_fixed4(data, TIME_TAG)?;
    Ok(((b[0], b[1], b[2], b[3]), consumed))
}

/// Decoding an encoded date gives back its fields, for every year from
/// 1900 to 2154 and for the unspecified year 255.
pub proof fn lemma_date_round_trip(year: u16, month: u8, day: u8, weekday: u8, rest: Seq<u8>)
    requires
        year == 255 || 1900 <= year <= 2154,
    ensures
        date_decode(date_bytes(year, month, day, weekday) + rest) == Ok::<((u16, u8, u8, u8), usize), EncodingError>(
            ((year, month, day, weekday), date_bytes(year, month, day, weekday).len() as usize),
        ),
{
    let c = seq![date_year_octet(year), month, day, weekday];
    super::lemma_fixed4_round_trip(DATE_TAG, c, rest);
}

/// Year 2155 is written as octet 255 and so reads back as unspecified.
pub proof fn lemma_date_year_2155_is_unspecified(month: u8, day: u8, weekday: u8, rest: Seq<u8>)
    ensures
        date_decode(date_bytes(2155, month, day, weekday) + rest) matches Ok(((y, _, _, _), _)) && y == 255,
{
    let c = seq![date_year_octet(2155), month, day, weekday];
    super::lemma_fixed4_round_trip(DATE_TAG, c, rest);
}

/// Decoding an encoded time gives back its fields.
pub proof fn lemma_time_round_trip(hour: u8, minute: u8, second: u8, hundredths: u8, rest: Seq<u8>)
    ensures
        time_decode(time_bytes(hour, minute, second, hundredths) + rest) == Ok::<((u8, u8, u8, u8), usize), EncodingError>(
            ((hour, minute, second, hundredths), time_bytes(hour, minute, second, hundredths).len() as usize),
        ),
{
    let c = seq![hour, minute, second, hundredths];
    super::lemma_fixed4_round_trip(TIME_TAG, c, rest);
}

} // verus!
