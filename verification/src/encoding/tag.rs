//! BACnet tag encoding and decoding (the general tag framing rules).
//!
//! A tag is the initial octet plus zero or more extension octets that
//! precede each data element. The initial octet holds the tag number in
//! its high nibble (15 means "extended": the number follows in one octet,
//! 255 being reserved), the class in bit 3 (0 application, 1 context) and
//! the Length/Value/Type field in bits 2-0: 0-4 is a direct length, 5 means
//! the length follows (one octet for 5-253, 254 plus two octets for up to
//! 65535, 255 plus four octets otherwise), 6 is an opening tag and 7 a
//! closing tag.

use vstd::prelude::*;

use super::{append_bytes, EncodingError};

verus! {

/// The class of a BACnet tag.
#[derive(Debug, Clone, Copy, PartialEq, Eq, Structural)]
pub enum TagClass {
    /// Identifies a fundamental BACnet datatype.
    Application,
    /// Identifies a data element whose datatype is inferred from context.
    Context,
}

/// The application datatypes identified by an application-class tag number.
#[derive(Debug, Clone, Copy, PartialEq, Eq, Structural)]
pub enum ApplicationTagNumber {
    Null,
    Boolean,
    UnsignedInt,
    SignedInt,
    Real,
    Double,
    OctetString,
    CharacterString,
    BitString,
    Enumerated,
    Date,
    Time,
    ObjectIdentifier,
    Reserved13,
    Reserved14,
    Reserved15,
}

/// The numeric tag of each application datatype.
pub open spec fn app_tag_code(t: ApplicationTagNumber) -> u32 {
    match t {
        ApplicationTagNumber::Null => 0,
        ApplicationTagNumber::Boolean => 1,
        ApplicationTagNumber::UnsignedInt => 2,
        ApplicationTagNumber::SignedInt => 3,
        ApplicationTagNumber::Real => 4,
        ApplicationTagNumber::Double => 5,
        ApplicationTagNumber::OctetString => 6,
        ApplicationTagNumber::CharacterString => 7,
        ApplicationTagNumber::BitString => 8,
        ApplicationTagNumber::Enumerated => 9,
        ApplicationTagNumber::Date => 10,
        ApplicationTagNumber::Time => 11,
        ApplicationTagNumber::ObjectIdentifier => 12,
        ApplicationTagNumber::Reserved13 => 13,
        ApplicationTagNumber::Reserved14 => 14,
        ApplicationTagNumber::Reserved15 => 15,
    }
}

impl ApplicationTagNumber {
    /// The numeric tag number of this datatype.
    pub fn code(self) -> (r: u32)
        ensures
            r == app_tag_code(self),
    {
        match self {
            ApplicationTagNumber::Null => 0,
            ApplicationTagNumber::Boolean => 1,
            ApplicationTagNumber::UnsignedInt => 2,
            ApplicationTagNumber::SignedInt => 3,
            ApplicationTagNumber::Real => 4,
            ApplicationTagNumber::Double => 5,
            ApplicationTagNumber::OctetString => 6,
            ApplicationTagNumber::CharacterString => 7,
            ApplicationTagNumber::BitString => 8,
            ApplicationTagNumber::Enumerated => 9,
            ApplicationTagNumber::Date => 10,
            ApplicationTagNumber::Time => 11,
            ApplicationTagNumber::ObjectIdentifier => 12,
            ApplicationTagNumber::Reserved13 => 13,
            ApplicationTagNumber::Reserved14 => 14,
            ApplicationTagNumber::Reserved15 => 15,
        }
    }

    /// The datatype with tag number `value`; numbers above 15 are not
    /// application datatypes.
    pub fn from_u32(value: u32) -> (r: Result<ApplicationTagNumber, EncodingError>)
        ensures
            value <= 15 <==> r is Ok,
            r matches Ok(t) ==> app_tag_code(t) == value,
            value > 15 ==> r matches Err(EncodingError::InvalidTag),
            r == app_tag_of(value),
    {
        match value {
            0 => Ok(ApplicationTagNumber::Null),
            1 => Ok(ApplicationTagNumber::Boolean),
            2 => Ok(ApplicationTagNumber::UnsignedInt),
            3 => Ok(ApplicationTagNumber::SignedInt),
            4 => Ok(ApplicationTagNumber::Real),
            5 => Ok(ApplicationTagNumber::Double),
            6 => Ok(ApplicationTagNumber::OctetString),
            7 => Ok(ApplicationTagNumber::CharacterString),
            8 => Ok(ApplicationTagNumber::BitString),
            9 => Ok(ApplicationTagNumber::Enumerated),
            10 => Ok(ApplicationTagNumber::Date),
            11 => Ok(ApplicationTagNumber::Time),
            12 => Ok(ApplicationTagNumber::ObjectIdentifier),
            13 => Ok(ApplicationTagNumber::Reserved13),
            14 => Ok(ApplicationTagNumber::Reserved14),
            15 => Ok(ApplicationTagNumber::Reserved15),
            _ => Err(EncodingError::InvalidTag),
        }
    }
}

/// The application datatypes carry the tag numbers of Clause 20.2.1.4:
/// Null 0, Boolean 1, Unsigned 2, Signed 3, Real 4, Double 5, Octet
/// String 6, Character String 7, Bit String 8, Enumerated 9, Date 10,
/// Time 11, Object Identifier 12, and 13 to 15 reserved; a number reads
/// back as exactly the datatype that has it, and one above 15 is refused.
pub proof fn lemma_app_tag_numbers(t: ApplicationTagNumber, v: u32)
    ensures
        app_tag_code(ApplicationTagNumber::Null) == 0,
        app_tag_code(ApplicationTagNumber::Boolean) == 1,
        app_tag_code(ApplicationTagNumber::UnsignedInt) == 2,
        app_tag_code(ApplicationTagNumber::SignedInt) == 3,
        app_tag_code(ApplicationTagNumber::Real) == 4,
        app_tag_code(ApplicationTagNumber::Double) == 5,
        app_tag_code(ApplicationTagNumber::OctetString) == 6,
        app_tag_code(ApplicationTagNumber::CharacterString) == 7,
        app_tag_code(ApplicationTagNumber::BitString) == 8,
        app_tag_code(ApplicationTagNumber::Enumerated) == 9,
        app_tag_code(ApplicationTagNumber::Date) == 10,
        app_tag_code(ApplicationTagNumber::Time) == 11,
        app_tag_code(ApplicationTagNumber::ObjectIdentifier) == 12,
        app_tag_code(ApplicationTagNumber::Reserved13) == 13,
        app_tag_code(ApplicationTagNumber::Reserved14) == 14,
        app_tag_code(ApplicationTagNumber::Reserved15) == 15,
        app_tag_of(v) == Ok::<ApplicationTagNumber, EncodingError>(t) <==> app_tag_code(t) == v,
        v > 15 ==> app_tag_of(v) is Err,
{
}

/// The datatype with a tag number, or `InvalidTag` above 15.
pub open spec fn app_tag_of(value: u32) -> Result<ApplicationTagNumber, EncodingError> {
    if value == 0 { Ok(ApplicationTagNumber::Null) }
    else if value == 1 { Ok(ApplicationTagNumber::Boolean) }
    else if value == 2 { Ok(ApplicationTagNumber::UnsignedInt) }
    else if value == 3 { Ok(ApplicationTagNumber::SignedInt) }
    else if value == 4 { Ok(ApplicationTagNumber::Real) }
    else if value == 5 { Ok(ApplicationTagNumber::Double) }
    else if value == 6 { Ok(ApplicationTagNumber::OctetString) }
    else if value == 7 { Ok(ApplicationTagNumber::CharacterString) }
    else if value == 8 { Ok(ApplicationTagNumber::BitString) }
    else if value == 9 { Ok(ApplicationTagNumber::Enumerated) }
    else if value == 10 { Ok(ApplicationTagNumber::Date) }
    else if value == 11 { Ok(ApplicationTagNumber::Time) }
    else if value == 12 { Ok(ApplicationTagNumber::ObjectIdentifier) }
    else if value == 13 { Ok(ApplicationTagNumber::Reserved13) }
    else if value == 14 { Ok(ApplicationTagNumber::Reserved14) }
    else if value == 15 { Ok(ApplicationTagNumber::Reserved15) }
    else { Err(EncodingError::InvalidTag) }
}

impl TryFrom<u32> for ApplicationTagNumber {
    type Error = EncodingError;

    /// The datatype with tag number `value`; `InvalidTag` above 15.
    fn try_from(value: u32) -> (r: Result<ApplicationTagNumber, EncodingError>) {
        ApplicationTagNumber::from_u32(value)
    }
}

impl vstd::std_specs::convert::TryFromSpecImpl<u32> for ApplicationTagNumber {
    open spec fn obeys_try_from_spec() -> bool {
        true
    }

    open spec fn try_from_spec(value: u32) -> Result<ApplicationTagNumber, EncodingError> {
        app_tag_of(value)
    }
}

impl From<ApplicationTagNumber> for u32 {
    /// The tag number of a datatype.
    fn from(value: ApplicationTagNumber) -> (r: u32) {
        value.code()
    }
}

impl vstd::std_specs::convert::FromSpecImpl<ApplicationTagNumber> for u32 {
    open spec fn obeys_from_spec() -> bool {
        true
    }

    open spec fn from_spec(value: ApplicationTagNumber) -> u32 {
        app_tag_code(value)
    }
}

/// The Length/Value/Type interpretation of a decoded tag.
#[derive(Debug, Clone, Copy, PartialEq, Eq, Structural)]
pub enum TagValue {
    /// Primitive data follows, this many octets long (for an application
    /// Boolean, the value itself).
    Primitive(u32),
    /// Opening tag of a constructed encoding.
    Opening,
    /// Closing tag of a constructed encoding.
    Closing,
}

/// A BACnet tag: the initial octet and any extension octets.
#[derive(Debug, Clone, Copy, PartialEq, Eq, Structural)]
pub struct Tag {
    /// The tag number, 0-254.
    pub number: u32,
    /// The tag's class.
    pub class: TagClass,
    /// The tag's Length/Value/Type interpretation.
    pub value: TagValue,
}

/// The largest tag number the encoding allows.
pub const MAX_TAG_NUMBER: u32 = 254;

/// The class bit of the initial octet.
pub open spec fn class_bit(c: TagClass) -> int {
    match c {
        TagClass::Application => 0,
        TagClass::Context => 8,
    }
}

/// The Length/Value/Type field written for a tag value.
pub open spec fn lvt_field(v: TagValue) -> int {
    match v {
        TagValue::Opening => 6,
        TagValue::Closing => 7,
        TagValue::Primitive(l) => if l <= 4 { l as int } else { 5 },
    }
}

/// The octets that follow the initial octet (and any tag-number extension)
/// to carry a length above 4.
pub open spec fn length_extension(v: TagValue) -> Seq<u8> {
    match v {
        TagValue::Primitive(l) => if l <= 4 {
            seq![]
        } else if l <= 253 {
            seq![l as u8]
        } else if l <= 65535 {
            seq![254u8, (l / 256) as u8, (l % 256) as u8]
        } else {
            seq![
                255u8,
                (l / 16777216) as u8,
                ((l / 65536) % 256) as u8,
                ((l / 256) % 256) as u8,
                (l % 256) as u8,
            ]
        },
        _ => seq![],
    }
}

/// The octets encoding tag `t` on the wire.
pub open spec fn tag_bytes(t: Tag) -> Seq<u8> {
    let nibble: int = if t.number > 14 { 15 } else { t.number as int };
    let first = (nibble * 16 + class_bit(t.class) + lvt_field(t.value)) as u8;
    let ext = if t.number > 14 { seq![t.number as u8] } else { seq![] };
    seq![first] + ext + length_extension(t.value)
}

/// A 16-bit big-endian value.
pub open spec fn be16(a: u8, b: u8) -> u32 {
    ((a as int) * 256 + (b as int)) as u32
}

/// A 32-bit big-endian value.
pub open spec fn be32(a: u8, b: u8, c: u8, d: u8) -> u32 {
    ((a as int) * 16777216 + (b as int) * 65536 + (c as int) * 256 + (d as int)) as u32
}

/// The class named by an initial octet.
pub open spec fn class_of(initial: u8) -> TagClass {
    if (initial / 8) % 2 == 1 {
        TagClass::Context
    } else {
        TagClass::Application
    }
}

/// What decoding a tag from the start of `d` gives: the tag and the number
/// of octets it occupies, or the error met.
pub open spec fn tag_decode(d: Seq<u8>) -> Result<(Tag, usize), EncodingError> {
    if d.len() == 0 {
        Err(EncodingError::InvalidTag)
    } else {
        let initial = d[0];
        let class = class_of(initial);
        let extended = initial / 16 == 15;
        if extended && d.len() < 2 {
            Err(EncodingError::BufferUnderflow)
        } else if extended && d[1] == 255 {
            Err(EncodingError::InvalidTag)
        } else {
            let number: u32 = if extended { d[1] as u32 } else { (initial / 16) as u32 };
            let pos: int = if extended { 2 } else { 1 };
            let lvt = initial % 8;
            if lvt == 6 {
                Ok((Tag { number, class, value: TagValue::Opening }, pos as usize))
            } else if lvt == 7 {
                Ok((Tag { number, class, value: TagValue::Closing }, pos as usize))
            } else if lvt == 5 {
                if d.len() < pos + 1 {
                    Err(EncodingError::BufferUnderflow)
                } else {
                    let lb = d[pos];
                    if lb <= 253 {
                        Ok((Tag { number, class, value: TagValue::Primitive(lb as u32) }, (pos + 1) as usize))
                    } else if lb == 254 {
                        if d.len() < pos + 3 {
                            Err(EncodingError::BufferUnderflow)
                        } else {
                            Ok((Tag { number, class, value: TagValue::Primitive(be16(d[pos + 1], d[pos + 2])) }, (pos + 3) as usize))
                        }
                    } else if d.len() < pos + 5 {
                        Err(EncodingError::BufferUnderflow)
                    } else {
                        Ok((Tag { number, class, value: TagValue::Primitive(be32(d[pos + 1], d[pos + 2], d[pos + 3], d[pos + 4])) }, (pos + 5) as usize))
                    }
                }
            } else {
                Ok((Tag { number, class, value: TagValue::Primitive(lvt as u32) }, pos as usize))
            }
        }
    }
}

/// The content length of a primitive tag, `None` for opening and closing tags.
pub open spec fn tag_content_length(t: Tag) -> Option<u32> {
    match t.value {
        TagValue::Primitive(l) => Some(l),
        _ => None,
    }
}

impl Tag {
    /// Creates a tag after checking its number, which must be at most 254.
    fn make(class: TagClass, number: u32, value: TagValue) -> (r: Result<Tag, EncodingError>)
        ensures
            number <= MAX_TAG_NUMBER ==> r == Ok::<Tag, EncodingError>(Tag { number, class, value }),
            number > MAX_TAG_NUMBER ==> r matches Err(EncodingError::ValueOutOfRange),
    {
        if number > MAX_TAG_NUMBER {
            return Err(EncodingError::ValueOutOfRange);
        }
        Ok(Tag { number, class, value })
    }

    /// Creates a primitive tag with the given class, number and content length.
    pub fn primitive(class: TagClass, number: u32, length: u32) -> (r: Result<Tag, EncodingError>)
        ensures
            number <= MAX_TAG_NUMBER ==> r == Ok::<Tag, EncodingError>(
                Tag { number, class, value: TagValue::Primitive(length) },
            ),
            number > MAX_TAG_NUMBER ==> r matches Err(EncodingError::ValueOutOfRange),
    {
        Self::make(class, number, TagValue::Primitive(length))
    }

    /// Creates the opening tag of a constructed encoding (always context class).
    pub fn opening(number: u32) -> (r: Result<Tag, EncodingError>)
        ensures
            number <= MAX_TAG_NUMBER ==> r == Ok::<Tag, EncodingError>(
                Tag { number, class: TagClass::Context, value: TagValue::Opening },
            ),
            number > MAX_TAG_NUMBER ==> r matches Err(EncodingError::ValueOutOfRange),
    {
        Self::make(TagClass::Context, number, TagValue::Opening)
    }

    /// Creates the closing tag of a constructed encoding (always context class).
    pub fn closing(number: u32) -> (r: Result<Tag, EncodingError>)
        ensures
            number <= MAX_TAG_NUMBER ==> r == Ok::<Tag, EncodingError>(
                Tag { number, class: TagClass::Context, value: TagValue::Closing },
            ),
            number > MAX_TAG_NUMBER ==> r matches Err(EncodingError::ValueOutOfRange),
    {
        Self::make(TagClass::Context, number, TagValue::Closing)
    }

    /// True if this is the opening tag of a constructed encoding.
    pub fn is_opening(&self) -> (r: bool)
        ensures
            r <==> self.value is Opening,
    {
        matches!(self.value, TagValue::Opening)
    }

    /// True if this is the closing tag of a constructed encoding.
    pub fn is_closing(&self) -> (r: bool)
        ensures
            r <==> self.value is Closing,
    {
        matches!(self.value, TagValue::Closing)
    }

    /// True if this tag delimits primitive data.
    pub fn is_primitive(&self) -> (r: bool)
        ensures
            r <==> self.value is Primitive,
    {
        matches!(self.value, TagValue::Primitive(_))
    }

    /// The content length in octets, if this is a primitive tag.
    pub fn content_length(&self) -> (r: Option<u32>)
        ensures
            r == tag_content_length(*self),
    {
        match self.value {
            TagValue::Primitive(length) => Some(length),
            _ => None,
        }
    }

    /// Encodes this tag onto the end of `buffer`; a tag number above 254 is
    /// refused and leaves the buffer as it was.
    pub fn encode(&self, buffer: &mut Vec<u8>) -> (r: Result<(), EncodingError>)
        ensures
            self.number <= MAX_TAG_NUMBER ==> r is Ok && final(buffer)@ == old(buffer)@ + tag_bytes(*self),
            self.number > MAX_TAG_NUMBER ==> (r matches Err(EncodingError::ValueOutOfRange))
                && final(buffer)@ == old(buffer)@,
    {
        if self.number > MAX_TAG_NUMBER {
            return Err(EncodingError::ValueOutOfRange);
        }
        let class_bit: u8 = match self.class {
            TagClass::Application => 0,
            TagClass::Context => 8,
        };
        let extended = self.number > 14;
        let nibble: u8 = if extended { 15 } else { self.number as u8 };
        let lvt: u8 = match self.value {
            TagValue::Opening => 6,
            TagValue::Closing => 7,
            TagValue::Primitive(length) => if length <= 4 { length as u8 } else { 5 },
        };
        let first: u8 = nibble * 16 + class_bit + lvt;
        let mut bytes: Vec<u8> = Vec::new();
        bytes.push(first);
        if extended {
            bytes.push(self.number as u8);
        }
        if let TagValue::Primitive(length) = self.value {
            if length > 4 {
                if length <= 253 {
                    bytes.push(length as u8);
                } else if length <= 65535 {
                    bytes.push(254);
                    bytes.push((length / 256) as u8);
                    bytes.push((length % 256) as u8);
                } else {
                    bytes.push(255);
                    bytes.push((length / 16777216) as u8);
                    bytes.push(((length / 65536) % 256) as u8);
                    bytes.push(((length / 256) % 256) as u8);
                    bytes.push((length % 256) as u8);
                }
            }
        }
        assert(bytes@ == tag_bytes(*self));
        append_bytes(buffer, bytes.as_slice());
        Ok(())
    }

    /// Decodes a tag from the start of `data`, returning it with the number
    /// of octets the tag itself occupies.
    pub fn decode(data: &[u8]) -> (r: Result<(Tag, usize), EncodingError>)
        ensures
            r == tag_decode(data@),
    {
        if data.len() == 0 {
            return Err(EncodingError::InvalidTag);
        }
        let initial = data[0];
        let class = if (initial / 8) % 2 == 1 { TagClass::Context } else { TagClass::Application };
        let mut consumed: usize = 1;
        let mut number: u32 = (initial / 16) as u32;
        if initial / 16 == 15 {
            if data.len() < 2 {
                return Err(EncodingError::BufferUnderflow);
            }
            let ext = data[1];
            if ext == 255 {
                return Err(EncodingError::InvalidTag);
            }
            number = ext as u32;
            consumed = 2;
        }
        let lvt = initial % 8;
        let value = if lvt == 6 {
            TagValue::Opening
        } else if lvt == 7 {
            TagValue::Closing
        } else if lvt == 5 {
            if data.len() < consumed + 1 {
                return Err(EncodingError::BufferUnderflow);
            }
            let len_byte = data[consumed];
            consumed = consumed + 1;
            if len_byte <= 253 {
                TagValue::Primitive(len_byte as u32)
            } else if len_byte == 254 {
                if data.len() < consumed + 2 {
                    return Err(EncodingError::BufferUnderflow);
                }
                let v = (data[consumed] as u32) * 256 + (data[consumed + 1] as u32);
                consumed = consumed + 2;
                TagValue::Primitive(v)
            } else {
                if data.len() < consumed + 4 {
                    return Err(EncodingError::BufferUnderflow);
                }
                let v = (data[consumed] as u32) * 16777216 + (data[consumed + 1] as u32) * 65536
                    + (data[consumed + 2] as u32) * 256 + (data[consumed + 3] as u32);
                consumed = consumed + 4;
                TagValue::Primitive(v)
            }
        } else {
            TagValue::Primitive(lvt as u32)
        };
        Ok((Tag { number, class, value }, consumed))
    }
}

/// Decoding what encoding a valid tag wrote, followed by any further
/// octets, gives back that tag and the length of its encoding.
pub proof fn lemma_tag_round_trip(t: Tag, rest: Seq<u8>)
    requires
        t.number <= MAX_TAG_NUMBER,
    ensures
        tag_decode(tag_bytes(t) + rest) == Ok::<(Tag, usize), EncodingError>(
            (t, tag_bytes(t).len() as usize),
        ),
        1 <= tag_bytes(t).len() <= 7,
{
    let d = tag_bytes(t) + rest;
    let nibble: int = if t.number > 14 { 15 } else { t.number as int };
    let first = (nibble * 16 + class_bit(t.class) + lvt_field(t.value));
    assert(0 <= first < 256);
    assert(d[0] == first as u8);
    assert(d[0] / 16 == nibble);
    assert(d[0] % 8 == lvt_field(t.value));
    assert((d[0] / 8) % 2 == class_bit(t.class) / 8);
    assert(class_of(d[0]) == t.class);
    if t.number > 14 {
        assert(d[1] == t.number as u8);
    }
    let pos: int = if t.number > 14 { 2 } else { 1 };
    match t.value {
        TagValue::Primitive(l) => {
            if l > 4 {
                assert(d[pos] == length_extension(t.value)[0]);
                if l > 253 && l <= 65535 {
                    assert(d[pos + 1] == (l / 256) as u8);
                    assert(d[pos + 2] == (l % 256) as u8);
                    assert(be16(d[pos + 1], d[pos + 2]) == l);
                } else if l > 65535 {
                    assert(d[pos + 1] == (l / 16777216) as u8);
                    assert(d[pos + 2] == ((l / 65536) % 256) as u8);
                    assert(d[pos + 3] == ((l / 256) % 256) as u8);
                    assert(d[pos + 4] == (l % 256) as u8);
                    assert(be32(d[pos + 1], d[pos + 2], d[pos + 3], d[pos + 4]) == l);
                }
            }
        },
        _ => {},
    }
}

} // verus!
