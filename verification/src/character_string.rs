//! A CharacterString held as its character set and its raw data octets,
//! with the character-set header read and written as BACnet lays it out.

use vstd::prelude::*;

use crate::encoding::character_string::{
    be16_units, be16_units_of, latin1_decode, latin1_to_utf8, string_from_utf16_lossy, utf16_lossy_decoded,
};
use crate::encoding::tag::be16;
use crate::text::{lossy_chars, text_of, utf8_lossy_decoded};
use vstd::utf8::encode_utf8;
use crate::encoding::{append_bytes, EncodingError};

verus! {

/// Errors of turning a CharacterString into text.
#[derive(Debug, Clone, PartialEq, Eq, Structural)]
pub enum Error {
    /// The string's encoding cannot be turned into text here.
    UnsupportedEncoding(StringEncoding),
}

/// The character set of a CharacterString, with a DBCS code page.
#[derive(Debug, Clone, Copy, PartialEq, Eq, Structural)]
pub enum StringEncoding {
    UTF8,
    DBCS(u16),
    JIS,
    UCS4,
    UCS2,
    ISO88591,
}

/// The octets that announce a character set.
pub open spec fn string_encoding_bytes(e: StringEncoding) -> Seq<u8> {
    match e {
        StringEncoding::UTF8 => seq![0u8],
        StringEncoding::DBCS(code) => seq![1u8, (code / 256) as u8, (code % 256) as u8],
        StringEncoding::JIS => seq![2u8],
        StringEncoding::UCS4 => seq![3u8],
        StringEncoding::UCS2 => seq![4u8],
        StringEncoding::ISO88591 => seq![5u8],
    }
}

/// What reading a character-set header from the start of `d` gives: the
/// character set and the octets it occupies. A DBCS header needs its two
/// code page octets; anything else is `ValueOutOfRange`.
pub open spec fn string_encoding_decode(d: Seq<u8>) -> Result<(StringEncoding, usize), EncodingError> {
    if d[0] == 0 {
        Ok((StringEncoding::UTF8, 1))
    } else if d[0] == 1 && d.len() >= 3 {
        Ok((StringEncoding::DBCS(be16(d[1], d[2]) as u16), 3))
    } else if d[0] == 2 {
        Ok((StringEncoding::JIS, 1))
    } else if d[0] == 3 {
        Ok((StringEncoding::UCS4, 1))
    } else if d[0] == 4 {
        Ok((StringEncoding::UCS2, 1))
    } else if d[0] == 5 {
        Ok((StringEncoding::ISO88591, 1))
    } else {
        Err(EncodingError::ValueOutOfRange)
    }
}

impl StringEncoding {
    /// Reads a character-set header from the start of `data`.
    pub fn decode(data: &[u8]) -> (r: Result<(StringEncoding, usize), EncodingError>)
        requires
            data@.len() >= 1,
        ensures
            r == string_encoding_decode(data@),
    {
        let first = data[0];
        if first == 0 {
            Ok((StringEncoding::UTF8, 1))
        } else if first == 1 && data.len() >= 3 {
            Ok((StringEncoding::DBCS((data[1] as u16) * 256 + data[2] as u16), 3))
        } else if first == 2 {
            Ok((StringEncoding::JIS, 1))
        } else if first == 3 {
            Ok((StringEncoding::UCS4, 1))
        } else if first == 4 {
            Ok((StringEncoding::UCS2, 1))
        } else if first == 5 {
            Ok((StringEncoding::ISO88591, 1))
        } else {
            Err(EncodingError::ValueOutOfRange)
        }
    }

    /// The header octets announcing this character set.
    pub fn encode(&self) -> (r: Vec<u8>)
        ensures
            r@ == string_encoding_bytes(*self),
    {
        let mut data: Vec<u8> = Vec::new();
        match *self {
            StringEncoding::UTF8 => data.push(0),
            StringEncoding::DBCS(code) => {
                data.push(1);
                data.push((code / 256) as u8);
                data.push((code % 256) as u8);
            },
            StringEncoding::JIS => data.push(2),
            StringEncoding::UCS4 => data.push(3),
            StringEncoding::UCS2 => data.push(4),
            StringEncoding::ISO88591 => data.push(5),
        }
        assert(data@ =~= string_encoding_bytes(*self));
        data
    }
}

/// Reading back the header of a character set gives that character set.
pub proof fn lemma_string_encoding_round_trip(e: StringEncoding, rest: Seq<u8>)
    ensures
        string_encoding_decode(string_encoding_bytes(e) + rest)
            == Ok::<(StringEncoding, usize), EncodingError>((e, string_encoding_bytes(e).len() as usize)),
{
    let d = string_encoding_bytes(e) + rest;
    if let StringEncoding::DBCS(code) = e {
        assert(d[1] == (code / 256) as u8 && d[2] == (code % 256) as u8);
        assert(be16(d[1], d[2]) == code);
    }
}

/// A CharacterString: its character set and its data octets.
#[derive(Debug, Clone, PartialEq)]
pub struct CharacterString {
    pub encoding: StringEncoding,
    pub data: Vec<u8>,
}

impl Default for CharacterString {
    /// An empty UTF-8 string.
    fn default() -> (r: Self)
        ensures
            r.encoding == StringEncoding::UTF8,
            r.data@.len() == 0,
    {
        CharacterString { encoding: StringEncoding::UTF8, data: Vec::new() }
    }
}

impl CharacterString {
    /// A CharacterString with the given character set and data octets.
    pub fn new(encoding: StringEncoding, data: Vec<u8>) -> (r: Self)
        ensures
            r.encoding == encoding,
            r.data@ == data@,
    {
        CharacterString { encoding, data }
    }

    /// Reads a CharacterString: its character-set header, then all the
    /// remaining octets as its data.
    pub fn decode(data: &[u8]) -> (r: Result<Self, EncodingError>)
        requires
            data@.len() >= 1,
        ensures
            match string_encoding_decode(data@) {
                Err(e) => r == Err::<Self, EncodingError>(e),
                Ok((enc, n)) => r matches Ok(s) && s.encoding == enc && s.data@ == data@.subrange(n as int, data@.len() as int),
            },
    {
        let (encoding, offset) = StringEncoding::decode(data)?;
        let rest = vstd::slice::slice_to_vec(vstd::slice::slice_subrange(data, offset, data.len()));
        Ok(CharacterString { encoding, data: rest })
    }

    /// The header octets of the character set, then the data octets.
    pub fn encode(&self) -> (r: Vec<u8>)
        ensures
            r@ == string_encoding_bytes(self.encoding) + self.data@,
    {
        let mut out = self.encoding.encode();
        append_bytes(&mut out, self.data.as_slice());
        out
    }
}

/// Reading back an encoded CharacterString gives its character set and data.
pub proof fn lemma_character_string_round_trip(e: StringEncoding, data: Seq<u8>)
    ensures
        string_encoding_decode(string_encoding_bytes(e) + data) == Ok::<(StringEncoding, usize), EncodingError>(
            (e, string_encoding_bytes(e).len() as usize),
        ),
        (string_encoding_bytes(e) + data).subrange(string_encoding_bytes(e).len() as int, (string_encoding_bytes(e) + data).len() as int) == data,
{
    lemma_string_encoding_round_trip(e, data);
    let h = string_encoding_bytes(e);
    assert((h + data).subrange(h.len() as int, (h + data).len() as int) =~= data);
}

/// The text of a CharacterString, where its character set can be read
/// here: UTF-8 and UCS-2 decoded with replacement characters for what is
/// ill-formed (a final odd UCS-2 octet is left out), ISO 8859-1 octet by
/// octet (each is the character of that number); any other set is
/// `UnsupportedEncoding`.
pub open spec fn string_text(s: CharacterString) -> Result<Seq<char>, Error> {
    match s.encoding {
        StringEncoding::UTF8 => Ok(utf8_lossy_decoded(s.data@)),
        StringEncoding::UCS2 => Ok(utf16_lossy_decoded(be16_units(s.data@))),
        StringEncoding::ISO88591 => Ok(latin1_decode(s.data@)),
        _ => Err(Error::UnsupportedEncoding(s.encoding)),
    }
}

impl CharacterString {
    /// The text of this string. ISO 8859-1 data is converted to UTF-8 by
    /// `encoding_rs` into a buffer twice its length, and read from there.
    pub fn to_string(&self) -> (r: Result<String, Error>)
        ensures
            match string_text(*self) {
                Ok(t) => r matches Ok(s) && s@ == t,
                Err(e) => r == Err::<String, Error>(e),
            },
    {
        match self.encoding {
            StringEncoding::UTF8 => {
                let chars = lossy_chars(self.data.as_slice());
                Ok(text_of(&chars))
            },
            StringEncoding::UCS2 => {
                let units = be16_units_of(self.data.as_slice());
                Ok(string_from_utf16_lossy(units.as_slice()))
            },
            StringEncoding::ISO88591 => {
                let mut utf8_data: Vec<u8> = Vec::new();
                let mut k: usize = 0;
                while k < self.data.len()
                    invariant
                        k <= self.data@.len(),
                        utf8_data@.len() == 2 * k,
                    decreases self.data@.len() - k,
                {
                    utf8_data.push(0);
                    utf8_data.push(0);
                    k = k + 1;
                }
                let written = latin1_to_utf8(self.data.as_slice(), &mut utf8_data);
                utf8_data.truncate(written);
                proof {
                    vstd::utf8::encode_utf8_valid_utf8(latin1_decode(self.data@));
                    vstd::utf8::encode_utf8_decode_utf8(latin1_decode(self.data@));
                }
                let chars = lossy_chars(utf8_data.as_slice());
                Ok(text_of(&chars))
            },
            _ => Err(Error::UnsupportedEncoding(self.encoding)),
        }
    }

    /// A UTF-8 CharacterString holding the octets of `s`.
    fn utf8_text(s: &str) -> (r: Self)
        ensures
            r.encoding == StringEncoding::UTF8,
            r.data@ == encode_utf8(s@),
    {
        CharacterString {
            encoding: StringEncoding::UTF8,
            data: vstd::slice::slice_to_vec(s.as_bytes()),
        }
    }
}

impl core::str::FromStr for CharacterString {
    type Err = Error;

    /// A UTF-8 CharacterString holding the octets of `s`; never an error.
    fn from_str(s: &str) -> (r: Result<Self, Self::Err>)
        ensures
            r matches Ok(c) && c.encoding == StringEncoding::UTF8 && c.data@ == encode_utf8(s@),
    {
        Ok(CharacterString::utf8_text(s))
    }
}

} // verus!
