//! BACnet CharacterString values: an application tagged primitive whose
//! content is one character-set octet followed by the text's octets.
//!
//! | Charset octet | Character set |
//! |---|---|
//! | `0x00` | ISO 10646 (UTF-8) |
//! | `0x01` | IBM/Microsoft DBCS, then a 2-octet big-endian code page |
//! | `0x02` | JIS X 0208 (carried as Shift_JIS) |
//! | `0x03` | ISO 10646 (UCS-4), 4 big-endian octets per character |
//! | `0x04` | ISO 10646 (UCS-2), 2 big-endian octets per unit |
//! | `0x05` | ISO 8859-1 |
//!
//! Other charset octets are reserved and refused. Text is only ever
//! encoded as UTF-8. The legacy charsets are decoded with `encoding_rs`
//! (Windows and WHATWG code pages, and Shift_JIS) and `oem_cp` (DOS/OEM
//! code pages); for a code page neither knows, only ASCII text is decoded.

use vstd::prelude::*;
use vstd::utf8::{decode_utf8, encode_utf8, is_scalar, valid_utf8};
use vstd::string::StringSliceAdditionalSpecFns;

use super::{app_primitive_bytes, append_bytes, EncodingError};
use super::tag::{be16, be32, tag_bytes, tag_content_length, tag_decode, Tag, TagClass, TagValue};

verus! {

/// The application tag number of a CharacterString.
pub const CHARACTER_STRING_TAG: u32 = 7;

pub const CHARSET_UTF8: u8 = 0x00;
pub const CHARSET_DBCS: u8 = 0x01;
pub const CHARSET_JIS_X0208: u8 = 0x02;
pub const CHARSET_UCS4: u8 = 0x03;
pub const CHARSET_UCS2: u8 = 0x04;
pub const CHARSET_ISO_8859_1: u8 = 0x05;

/// The character set a decoded CharacterString was encoded in.
#[derive(Debug, Clone, Copy, PartialEq, Eq, Structural)]
pub enum CharacterSet {
    /// ISO 10646 (UTF-8).
    Utf8,
    /// IBM/Microsoft DBCS, carrying its 16-bit code page number.
    Dbcs(u16),
    /// JIS X 0208.
    JisX0208,
    /// ISO 10646 (UCS-4).
    Ucs4,
    /// ISO 10646 (UCS-2).
    Ucs2,
    /// ISO 8859-1.
    Iso8859_1,
}

/// The text a WHATWG encoding with the given label makes of `body`
/// (`encoding_rs`'s `Encoding::decode`, with its BOM sniffing), or `None`
/// where the label is unknown or `body` holds malformed sequences.
pub uninterp spec fn whatwg_decoded(label: Seq<char>, body: Seq<u8>) -> Option<Seq<char>>;

/// Whether `oem_cp` has a decoding table for `code_page`, and if so the
/// text its checked decoding makes of `body` (`None` where `body` holds an
/// octet the table leaves undefined).
pub uninterp spec fn oem_decoded(code_page: u16, body: Seq<u8>) -> Option<Option<Seq<char>>>;

/// The text of an optional `String`.
pub open spec fn opt_text(o: Option<String>) -> Option<Seq<char>> {
    match o {
        Some(s) => Some(s@),
        None => None,
    }
}

/// Decodes `body` with the `encoding_rs` encoding that `label` names.
#[verifier::external_body]
fn whatwg_decode(label: &str, body: &[u8]) -> (r: Option<String>)
    ensures
        opt_text(r) == whatwg_decoded(label@, body@),
{
    let encoding = encoding_rs::Encoding::for_label(label.as_bytes())?;
    let (text, _, had_errors) = encoding.decode(body);
    if had_errors {
        None
    } else {
        Some(text.into_owned())
    }
}

/// Decodes `body` with `oem_cp`'s table for `code_page`, if it has one.
#[verifier::external_body]
fn oem_decode(code_page: u16, body: &[u8]) -> (r: Option<Option<String>>)
    ensures
        match r {
            None => oem_decoded(code_page, body@) is None,
            Some(o) => oem_decoded(code_page, body@) == Some(opt_text(o)),
        },
{
    match oem_cp::code_table::DECODING_TABLE_CP_MAP.get(&code_page) {
        Some(table) => Some(table.decode_string_checked(body)),
        None => None,
    }
}

/// `String::from_utf8`: the text of valid UTF-8, `None` otherwise.
#[verifier::external_body]
fn string_from_utf8(bytes: Vec<u8>) -> (r: Option<String>)
    ensures
        r is Some <==> valid_utf8(bytes@),
        r matches Some(s) ==> s@ == decode_utf8(bytes@),
{
    String::from_utf8(bytes).ok()
}

/// `char::from_u32`: the character with scalar value `v`, if there is one.
#[verifier::external_body]
fn char_from_u32(v: u32) -> (r: Option<char>)
    ensures
        r is Some <==> is_scalar(v),
        r matches Some(c) ==> c as u32 == v,
{
    char::from_u32(v)
}

/// `String::from_utf16`: the text of well-formed UTF-16, `None` otherwise.
#[verifier::external_body]
fn string_from_utf16(units: &[u16]) -> (r: Option<String>)
    ensures
        opt_text(r) == utf16_decode(units@),
{
    String::from_utf16(units).ok()
}

/// The characters of UTF-16 units as `String::from_utf16_lossy` reads
/// them: as `utf16_decode` does, except that each unpaired surrogate is
/// U+FFFD and decoding goes on with the next unit.
pub open spec fn utf16_lossy_decoded(units: Seq<u16>) -> Seq<char>
    decreases units.len(),
{
    if units.len() == 0 {
        seq![]
    } else {
        let u = units[0];
        if u < 0xD800 || u > 0xDFFF {
            seq![u as char] + utf16_lossy_decoded(units.drop_first())
        } else if u <= 0xDBFF && units.len() >= 2 && 0xDC00 <= units[1] <= 0xDFFF {
            seq![(0x10000 + (u - 0xD800) * 0x400 + (units[1] - 0xDC00)) as char] + utf16_lossy_decoded(
                units.subrange(2, units.len() as int),
            )
        } else {
            seq!['\u{FFFD}'] + utf16_lossy_decoded(units.drop_first())
        }
    }
}

/// `String::from_utf16_lossy`: the text of UTF-16 units, each unpaired
/// surrogate replaced by U+FFFD (std documents it as decoding with
/// `char::decode_utf16` and replacing each error with U+FFFD, which
/// resumes at the unit after the unpaired surrogate).
#[verifier::external_body]
pub(crate) fn string_from_utf16_lossy(units: &[u16]) -> (r: String)
    ensures
        r@ == utf16_lossy_decoded(units@),
{
    String::from_utf16_lossy(units)
}

/// The UTF-8 octets that `encoding_rs::mem::convert_latin1_to_utf8` writes
/// for `src`.
pub open spec fn latin1_utf8(src: Seq<u8>) -> Seq<u8> {
    encode_utf8(latin1_decode(src))
}

/// `encoding_rs::mem::convert_latin1_to_utf8`: writes the UTF-8 form of
/// ISO 8859-1 octets at the start of `dst`, which must hold at least twice
/// as many octets as `src` (the function panics otherwise), and gives the
/// number written. Claimed: that count and those octets; what is left in
/// `dst` past them is left unsaid (the crate may write garbage there).
#[verifier::external_body]
pub(crate) fn latin1_to_utf8(src: &[u8], dst: &mut Vec<u8>) -> (r: usize)
    requires
        old(dst)@.len() >= 2 * src@.len(),
    ensures
        final(dst)@.len() == old(dst)@.len(),
        r <= final(dst)@.len(),
        r == latin1_utf8(src@).len(),
        final(dst)@.subrange(0, r as int) == latin1_utf8(src@),
{
    encoding_rs::mem::convert_latin1_to_utf8(src, dst.as_mut_slice())
}

/// Collects characters into a `String`.
#[verifier::external_body]
pub(crate) fn string_from_chars(chars: &[char]) -> (r: String)
    ensures
        r@ == chars@,
{
    chars.iter().collect()
}

/// The characters that UTF-16 code units stand for: a unit outside the
/// surrogate range is itself, a high surrogate followed by a low one is
/// the pair's supplementary character, and any other surrogate makes the
/// units ill-formed.
pub open spec fn utf16_decode(units: Seq<u16>) -> Option<Seq<char>>
    decreases units.len(),
{
    if units.len() == 0 {
        Some(seq![])
    } else {
        let u = units[0];
        if u < 0xD800 || u > 0xDFFF {
            match utf16_decode(units.drop_first()) {
                Some(r) => Some(seq![u as char] + r),
                None => None,
            }
        } else if u <= 0xDBFF && units.len() >= 2 && 0xDC00 <= units[1] <= 0xDFFF {
            let c = (0x10000 + (u - 0xD800) * 0x400 + (units[1] - 0xDC00)) as char;
            match utf16_decode(units.subrange(2, units.len() as int)) {
                Some(r) => Some(seq![c] + r),
                None => None,
            }
        } else {
            None
        }
    }
}

/// Big-endian 16-bit units of `body` (of even length).
pub open spec fn be16_units(body: Seq<u8>) -> Seq<u16> {
    Seq::new(body.len() / 2, |i: int| be16(body[2 * i], body[2 * i + 1]) as u16)
}

/// The `i`-th big-endian 32-bit value of `body`.
pub open spec fn be32_at(body: Seq<u8>, i: int) -> u32 {
    be32(body[4 * i], body[4 * i + 1], body[4 * i + 2], body[4 * i + 3])
}

/// The characters of UCS-4 content, or `None` where its length is not a
/// multiple of four or a value is not a Unicode scalar.
pub open spec fn ucs4_decode(body: Seq<u8>) -> Option<Seq<char>> {
    if body.len() % 4 != 0 {
        None
    } else if forall|i: int| 0 <= i < body.len() / 4 ==> is_scalar(#[trigger] be32_at(body, i)) {
        Some(Seq::new(body.len() / 4, |i: int| be32_at(body, i) as char))
    } else {
        None
    }
}

/// The characters of UCS-2 content, or `None` where its length is odd or
/// its units are not well-formed UTF-16.
pub open spec fn ucs2_decode(body: Seq<u8>) -> Option<Seq<char>> {
    if body.len() % 2 != 0 {
        None
    } else {
        utf16_decode(be16_units(body))
    }
}

/// The characters of ISO 8859-1 content: each octet is the character with
/// the same scalar value.
pub open spec fn latin1_decode(body: Seq<u8>) -> Seq<char> {
    Seq::new(body.len(), |i: int| body[i] as char)
}

/// The characters of plain ASCII content, `None` if an octet is 0x80 or above.
pub open spec fn ascii_decode(body: Seq<u8>) -> Option<Seq<char>> {
    if forall|i: int| 0 <= i < body.len() ==> #[trigger] body[i] < 0x80 {
        Some(latin1_decode(body))
    } else {
        None
    }
}

/// The WHATWG label of the `encoding_rs` encoding for a Windows/DBCS code
/// page number, for the code pages `encoding_rs` covers.
pub open spec fn windows_codepage_label(code_page: u16) -> Option<Seq<char>> {
    if code_page == 866 { Some("ibm866"@) }
    else if code_page == 874 { Some("windows-874"@) }
    else if code_page == 932 { Some("shift_jis"@) }
    else if code_page == 936 { Some("gbk"@) }
    else if code_page == 949 { Some("euc-kr"@) }
    else if code_page == 950 { Some("big5"@) }
    else if code_page == 1250 { Some("windows-1250"@) }
    else if code_page == 1251 { Some("windows-1251"@) }
    else if code_page == 1252 { Some("windows-1252"@) }
    else if code_page == 1253 { Some("windows-1253"@) }
    else if code_page == 1254 { Some("windows-1254"@) }
    else if code_page == 1255 { Some("windows-1255"@) }
    else if code_page == 1256 { Some("windows-1256"@) }
    else if code_page == 1257 { Some("windows-1257"@) }
    else if code_page == 1258 { Some("windows-1258"@) }
    else if code_page == 20866 { Some("koi8-r"@) }
    else if code_page == 21866 { Some("koi8-u"@) }
    else if code_page == 51932 { Some("euc-jp"@) }
    else if code_page == 54936 { Some("gb18030"@) }
    else { None }
}

/// The text of DBCS content under `code_page`: through `encoding_rs` for
/// the code pages it covers, else through `oem_cp`'s table if it has one,
/// else as plain ASCII.
pub open spec fn legacy_codepage_decode(code_page: u16, body: Seq<u8>) -> Option<Seq<char>> {
    match windows_codepage_label(code_page) {
        Some(label) => whatwg_decoded(label, body),
        None => match oem_decoded(code_page, body) {
            Some(o) => o,
            None => ascii_decode(body),
        },
    }
}

/// What the text of CharacterString content with character-set octet
/// `charset` and data octets `body` is. `Err(None)` stands for an
/// `InvalidFormat` error.
pub open spec fn charset_text(charset: u8, body: Seq<u8>) -> Result<(Seq<char>, CharacterSet), Option<EncodingError>> {
    let r: Option<Seq<char>> = if charset == CHARSET_UTF8 {
        if valid_utf8(body) { Some(decode_utf8(body)) } else { None }
    } else if charset == CHARSET_UCS4 {
        ucs4_decode(body)
    } else if charset == CHARSET_UCS2 {
        ucs2_decode(body)
    } else if charset == CHARSET_ISO_8859_1 {
        Some(latin1_decode(body))
    } else if charset == CHARSET_DBCS {
        legacy_codepage_decode(be16(body[0], body[1]) as u16, body.subrange(2, body.len() as int))
    } else if charset == CHARSET_JIS_X0208 {
        whatwg_decoded("shift_jis"@, body)
    } else {
        None
    };
    let set = if charset == CHARSET_UTF8 { CharacterSet::Utf8 }
        else if charset == CHARSET_UCS4 { CharacterSet::Ucs4 }
        else if charset == CHARSET_UCS2 { CharacterSet::Ucs2 }
        else if charset == CHARSET_ISO_8859_1 { CharacterSet::Iso8859_1 }
        else if charset == CHARSET_DBCS { CharacterSet::Dbcs(be16(body[0], body[1]) as u16) }
        else { CharacterSet::JisX0208 };
    if charset == CHARSET_DBCS && body.len() < 2 {
        Err(Some(EncodingError::BufferUnderflow))
    } else {
        match r {
            Some(t) => Ok((t, set)),
            None => Err(None),
        }
    }
}

/// What decoding an application-tagged CharacterString from the start of
/// `d` gives: its text, character set and the octets read. A tag of
/// another class or number is `InvalidTag`; empty content or a length
/// running past the end is `BufferUnderflow`.
pub open spec fn character_string_decode(d: Seq<u8>) -> Result<(Seq<char>, CharacterSet, usize), Option<EncodingError>> {
    match tag_decode(d) {
        Err(e) => Err(Some(e)),
        Ok((t, n)) => if t.class != TagClass::Application || t.number != CHARACTER_STRING_TAG {
            Err(Some(EncodingError::InvalidTag))
        } else {
            let length: int = match tag_content_length(t) {
                Some(l) => l as int,
                None => 0,
            };
            if length == 0 || d.len() < n + length {
                Err(Some(EncodingError::BufferUnderflow))
            } else {
                match charset_text(d[n as int], d.subrange(n + 1, n + length)) {
                    Err(e) => Err(e),
                    Ok((text, set)) => Ok((text, set, (n + length) as usize)),
                }
            }
        },
    }
}

/// The content of a UTF-8 CharacterString: the charset octet, then the
/// text's UTF-8 octets.
pub open spec fn utf8_content(text: Seq<char>) -> Seq<u8> {
    seq![CHARSET_UTF8] + encode_utf8(text)
}

/// The octets of an application-tagged UTF-8 CharacterString.
pub open spec fn character_string_bytes(text: Seq<char>) -> Seq<u8> {
    app_primitive_bytes(CHARACTER_STRING_TAG, utf8_content(text))
}

/// Encodes `value` as an application-tagged CharacterString, always in UTF-8.
pub fn encode_character_string(buffer: &mut Vec<u8>, value: &str) -> (r: Result<(), EncodingError>)
    requires
        value.spec_bytes().len() < 0xFFFF_FFFF,
    ensures
        r is Ok,
        final(buffer)@ == old(buffer)@ + character_string_bytes(value@),
{
    let t = Tag {
        number: CHARACTER_STRING_TAG,
        class: TagClass::Application,
        value: TagValue::Primitive(value.len() as u32 + 1),
    };
    let _ = t.encode(buffer);
    encode_utf8_content(buffer, value);
    assert(final(buffer)@ == old(buffer)@ + character_string_bytes(value@));
    Ok(())
}

/// Encodes just the charset octet and UTF-8 octets of a CharacterString,
/// with no tag, for callers that frame the content themselves.
pub fn encode_utf8_content(buffer: &mut Vec<u8>, value: &str)
    ensures
        final(buffer)@ == old(buffer)@ + utf8_content(value@),
{
    buffer.push(CHARSET_UTF8);
    append_bytes(buffer, value.as_bytes());
    assert(final(buffer)@ == old(buffer)@ + utf8_content(value@));
}

/// Whether every octet of `body` is below 0x80.
fn all_ascii(body: &[u8]) -> (r: bool)
    ensures
        r <==> forall|i: int| 0 <= i < body@.len() ==> #[trigger] body@[i] < 0x80,
{
    let mut i: usize = 0;
    while i < body.len()
        invariant
            i <= body@.len(),
            forall|j: int| 0 <= j < i ==> #[trigger] body@[j] < 0x80,
        decreases body@.len() - i,
    {
        if body[i] >= 0x80 {
            return false;
        }
        i = i + 1;
    }
    true
}

/// The ISO 8859-1 text of `body`.
pub(crate) fn latin1_text(body: &[u8]) -> (r: String)
    ensures
        r@ == latin1_decode(body@),
{
    let mut chars: Vec<char> = Vec::new();
    let mut i: usize = 0;
    while i < body.len()
        invariant
            i <= body@.len(),
            chars@ == latin1_decode(body@.subrange(0, i as int)),
        decreases body@.len() - i,
    {
        chars.push(body[i] as char);
        i = i + 1;
        assert(chars@ =~= latin1_decode(body@.subrange(0, i as int)));
    }
    assert(body@.subrange(0, i as int) =~= body@);
    string_from_chars(chars.as_slice())
}

/// The UCS-4 text of `body`, or `None` where it is not well formed.
fn ucs4_text(body: &[u8]) -> (r: Option<String>)
    ensures
        opt_text(r) == ucs4_decode(body@),
{
    if body.len() % 4 != 0 {
        return None;
    }
    let count = body.len() / 4;
    let mut chars: Vec<char> = Vec::new();
    let mut i: usize = 0;
    let mut pos: usize = 0;
    while i < count
        invariant
            count == body@.len() / 4,
            body@.len() % 4 == 0,
            i <= count,
            pos == 4 * i,
            chars@.len() == i,
            forall|j: int| 0 <= j < i ==> is_scalar(#[trigger] be32_at(body@, j)),
            forall|j: int| 0 <= j < i ==> chars@[j] == be32_at(body@, j) as char,
        decreases count - i,
    {
        assert(pos + 4 <= body@.len());
        let v: u32 = (body[pos] as u32) * 16777216 + (body[pos + 1] as u32) * 65536
            + (body[pos + 2] as u32) * 256 + (body[pos + 3] as u32);
        assert(v == be32_at(body@, i as int));
        match char_from_u32(v) {
            Some(c) => {
                chars.push(c);
                proof {
                    vstd::utf8::char_u32_cast(c, v);
                }
            },
            None => {
                return None;
            },
        }
        i = i + 1;
        pos = pos + 4;
    }
    assert(chars@ =~= Seq::new(body@.len() / 4, |j: int| be32_at(body@, j) as char));
    Some(string_from_chars(chars.as_slice()))
}

/// The UCS-2 text of `body`, or `None` where it is not well formed.
fn ucs2_text(body: &[u8]) -> (r: Option<String>)
    ensures
        opt_text(r) == ucs2_decode(body@),
{
    if body.len() % 2 != 0 {
        return None;
    }
    let units = be16_units_of(body);
    string_from_utf16(units.as_slice())
}

/// The big-endian 16-bit units of `body`, a final odd octet left out.
pub(crate) fn be16_units_of(body: &[u8]) -> (r: Vec<u16>)
    ensures
        r@ == be16_units(body@),
{
    let count = body.len() / 2;
    let mut units: Vec<u16> = Vec::new();
    let mut i: usize = 0;
    let mut pos: usize = 0;
    while i < count
        invariant
            count == body@.len() / 2,
            i <= count,
            pos == 2 * i,
            units@ == be16_units(body@).subrange(0, i as int),
        decreases count - i,
    {
        assert(pos + 2 <= body@.len());
        let u: u16 = (body[pos] as u16) * 256 + (body[pos + 1] as u16);
        units.push(u);
        i = i + 1;
        pos = pos + 2;
        assert(units@ =~= be16_units(body@).subrange(0, i as int));
    }
    assert(units@ =~= be16_units(body@));
    units
}

/// The text of `body` if it is plain ASCII.
fn ascii_text(body: &[u8]) -> (r: Option<String>)
    ensures
        opt_text(r) == ascii_decode(body@),
{
    if all_ascii(body) {
        Some(latin1_text(body))
    } else {
        None
    }
}

/// The WHATWG label of the `encoding_rs` encoding for a code page.
fn windows_codepage_label_of(code_page: u16) -> (r: Option<&'static str>)
    ensures
        match r {
            Some(l) => windows_codepage_label(code_page) == Some(l@),
            None => windows_codepage_label(code_page) is None,
        },
{
    match code_page {
        866 => Some("ibm866"),
        874 => Some("windows-874"),
        932 => Some("shift_jis"),
        936 => Some("gbk"),
        949 => Some("euc-kr"),
        950 => Some("big5"),
        1250 => Some("windows-1250"),
        1251 => Some("windows-1251"),
        1252 => Some("windows-1252"),
        1253 => Some("windows-1253"),
        1254 => Some("windows-1254"),
        1255 => Some("windows-1255"),
        1256 => Some("windows-1256"),
        1257 => Some("windows-1257"),
        1258 => Some("windows-1258"),
        20866 => Some("koi8-r"),
        21866 => Some("koi8-u"),
        51932 => Some("euc-jp"),
        54936 => Some("gb18030"),
        _ => None,
    }
}

/// The text of DBCS content under `code_page`.
fn legacy_codepage_text(body: &[u8], code_page: u16) -> (r: Option<String>)
    ensures
        opt_text(r) == legacy_codepage_decode(code_page, body@),
{
    match windows_codepage_label_of(code_page) {
        Some(label) => whatwg_decode(label, body),
        None => match oem_decode(code_page, body) {
            Some(o) => o,
            None => ascii_text(body),
        },
    }
}

/// Decodes an application-tagged CharacterString: its text, the character
/// set it was in, and the octets read (tag and content).
pub fn decode_character_string_full(data: &[u8]) -> (r: Result<(String, CharacterSet, usize), EncodingError>)
    ensures
        match character_string_decode(data@) {
            Err(Some(e)) => r == Err::<(String, CharacterSet, usize), EncodingError>(e),
            Err(None) => r matches Err(EncodingError::InvalidFormat(_)),
            Ok((text, set, k)) => r matches Ok((s, c, n)) && s@ == text && c == set && n == k,
        },
{
    let (t, consumed) = Tag::decode(data)?;
    proof {
        super::lemma_tag_decode_within(data@);
    }
    if t.class != TagClass::Application || t.number != CHARACTER_STRING_TAG {
        return Err(EncodingError::InvalidTag);
    }
    let length: usize = match t.content_length() {
        Some(l) => l as usize,
        None => 0,
    };
    if length == 0 || length > data.len() - consumed {
        return Err(EncodingError::BufferUnderflow);
    }
    let charset = data[consumed];
    let body = vstd::slice::slice_subrange(data, consumed + 1, consumed + length);
    let end = consumed + length;
    let bad = EncodingError::InvalidFormat("invalid character string content".to_string());
    if charset == CHARSET_UTF8 {
        match string_from_utf8(vstd::slice::slice_to_vec(body)) {
            Some(s) => Ok((s, CharacterSet::Utf8, end)),
            None => Err(bad),
        }
    } else if charset == CHARSET_UCS4 {
        match ucs4_text(body) {
            Some(s) => Ok((s, CharacterSet::Ucs4, end)),
            None => Err(bad),
        }
    } else if charset == CHARSET_UCS2 {
        match ucs2_text(body) {
            Some(s) => Ok((s, CharacterSet::Ucs2, end)),
            None => Err(bad),
        }
    } else if charset == CHARSET_ISO_8859_1 {
        Ok((latin1_text(body), CharacterSet::Iso8859_1, end))
    } else if charset == CHARSET_DBCS {
        if body.len() < 2 {
            return Err(EncodingError::BufferUnderflow);
        }
        let code_page: u16 = (body[0] as u16) * 256 + (body[1] as u16);
        let rest = vstd::slice::slice_subrange(body, 2, body.len());
        match legacy_codepage_text(rest, code_page) {
            Some(s) => Ok((s, CharacterSet::Dbcs(code_page), end)),
            None => Err(bad),
        }
    } else if charset == CHARSET_JIS_X0208 {
        match whatwg_decode("shift_jis", body) {
            Some(s) => Ok((s, CharacterSet::JisX0208, end)),
            None => Err(bad),
        }
    } else {
        Err(EncodingError::InvalidFormat("reserved character set".to_string()))
    }
}

/// Decodes an application-tagged CharacterString, leaving out which
/// character set it was in.
pub fn decode_character_string(data: &[u8]) -> (r: Result<(String, usize), EncodingError>)
    ensures
        match character_string_decode(data@) {
            Err(Some(e)) => r == Err::<(String, usize), EncodingError>(e),
            Err(None) => r matches Err(EncodingError::InvalidFormat(_)),
            Ok((text, set, k)) => r matches Ok((s, n)) && s@ == text && n == k,
        },
{
    let (text, _charset, consumed) = decode_character_string_full(data)?;
    Ok((text, consumed))
}

/// Decoding an encoded CharacterString gives back its text, in UTF-8.
pub proof fn lemma_character_string_round_trip(text: Seq<char>, rest: Seq<u8>)
    requires
        encode_utf8(text).len() < 0xFFFF_FFFF,
    ensures
        character_string_decode(character_string_bytes(text) + rest)
            == Ok::<(Seq<char>, CharacterSet, usize), Option<EncodingError>>(
            (text, CharacterSet::Utf8, character_string_bytes(text).len() as usize),
        ),
{
    let c = utf8_content(text);
    let t = Tag { number: CHARACTER_STRING_TAG, class: TagClass::Application, value: TagValue::Primitive(c.len() as u32) };
    let d = character_string_bytes(text) + rest;
    assert(d == tag_bytes(t) + (c + rest));
    super::tag::lemma_tag_round_trip(t, c + rest);
    let m: int = tag_bytes(t).len() as int;
    assert(d[m] == CHARSET_UTF8);
    assert(d.subrange(m + 1, m + c.len()) == encode_utf8(text));
    vstd::utf8::encode_utf8_valid_utf8(text);
    vstd::utf8::encode_utf8_decode_utf8(text);
}

} // verus!
