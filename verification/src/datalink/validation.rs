//! Validation of data link frames: BACnet/IP, Ethernet and MS/TP frames
//! are checked field by field, with every error and warning found, and
//! the patterns in a frame's octets are picked out.

use vstd::prelude::*;

use super::mstp::{calculate_header_crc, header_crc_spec};
use super::DataLinkType;
use crate::encoding::character_string::{latin1_decode, latin1_text};
use crate::text::{chars_of, concat, dec_text, hex_text, push_decimal, push_hex, text_of};
use crate::util::{crc16_mstp, crc16_mstp_spec};

verus! {

/// Errors found in a frame.
#[derive(Debug, Clone, PartialEq, Eq)]
pub enum ValidationError {
    FrameTooShort { size: usize, minimum: usize },
    FrameTooLong { size: usize, maximum: usize },
    InvalidPreamble { expected: Vec<u8>, found: Vec<u8> },
    CrcMismatch { expected: u32, calculated: u32 },
    InvalidFrameType { value: u8 },
    InvalidAddress { address: String, reason: String },
    InvalidHeader { reason: String },
    PayloadSizeMismatch { declared: usize, actual: usize },
}

/// Warnings about a frame.
#[derive(Debug, Clone, PartialEq, Eq)]
pub enum ValidationWarning {
    UnusualFrameSize { size: usize },
    DeprecatedFrameType { frame_type: u8 },
    NonStandardConfiguration { reason: String },
    SecurityWarning { reason: String },
}

/// The abstract content of an error.
pub enum ErrorView {
    FrameTooShort { size: usize, minimum: usize },
    FrameTooLong { size: usize, maximum: usize },
    InvalidPreamble { expected: Seq<u8>, found: Seq<u8> },
    CrcMismatch { expected: u32, calculated: u32 },
    InvalidFrameType { value: u8 },
    InvalidAddress { address: Seq<char>, reason: Seq<char> },
    InvalidHeader { reason: Seq<char> },
    PayloadSizeMismatch { declared: usize, actual: usize },
}

/// The abstract content of a warning.
pub enum WarningView {
    UnusualFrameSize { size: usize },
    DeprecatedFrameType { frame_type: u8 },
    NonStandardConfiguration { reason: Seq<char> },
    SecurityWarning { reason: Seq<char> },
}

impl View for ValidationError {
    type V = ErrorView;

    open spec fn view(&self) -> ErrorView {
        match self {
            ValidationError::FrameTooShort { size, minimum } => ErrorView::FrameTooShort { size: *size, minimum: *minimum },
            ValidationError::FrameTooLong { size, maximum } => ErrorView::FrameTooLong { size: *size, maximum: *maximum },
            ValidationError::InvalidPreamble { expected, found } => ErrorView::InvalidPreamble { expected: expected@, found: found@ },
            ValidationError::CrcMismatch { expected, calculated } => ErrorView::CrcMismatch { expected: *expected, calculated: *calculated },
            ValidationError::InvalidFrameType { value } => ErrorView::InvalidFrameType { value: *value },
            ValidationError::InvalidAddress { address, reason } => ErrorView::InvalidAddress { address: address@, reason: reason@ },
            ValidationError::InvalidHeader { reason } => ErrorView::InvalidHeader { reason: reason@ },
            ValidationError::PayloadSizeMismatch { declared, actual } => ErrorView::PayloadSizeMismatch { declared: *declared, actual: *actual },
        }
    }
}

impl View for ValidationWarning {
    type V = WarningView;

    open spec fn view(&self) -> WarningView {
        match self {
            ValidationWarning::UnusualFrameSize { size } => WarningView::UnusualFrameSize { size: *size },
            ValidationWarning::DeprecatedFrameType { frame_type } => WarningView::DeprecatedFrameType { frame_type: *frame_type },
            ValidationWarning::NonStandardConfiguration { reason } => WarningView::NonStandardConfiguration { reason: reason@ },
            ValidationWarning::SecurityWarning { reason } => WarningView::SecurityWarning { reason: reason@ },
        }
    }
}

/// The views of errors.
pub open spec fn errors_view(s: Seq<ValidationError>) -> Seq<ErrorView> {
    s.map_values(|e: ValidationError| e@)
}

/// The views of warnings.
pub open spec fn warnings_view(s: Seq<ValidationWarning>) -> Seq<WarningView> {
    s.map_values(|w: ValidationWarning| w@)
}

/// The result of validating a frame.
#[derive(Debug, Clone)]
pub struct ValidationResult {
    pub is_valid: bool,
    pub link_type: Option<DataLinkType>,
    pub frame_size: usize,
    pub errors: Vec<ValidationError>,
    pub warnings: Vec<ValidationWarning>,
}

/// The abstract content of a validation result.
pub type ValidationView = (bool, Option<DataLinkType>, usize, Seq<ErrorView>, Seq<WarningView>);

impl View for ValidationResult {
    type V = ValidationView;

    open spec fn view(&self) -> ValidationView {
        (self.is_valid, self.link_type, self.frame_size, errors_view(self.errors@), warnings_view(self.warnings@))
    }
}

/// `x` as a one-element sequence if `c` holds, else empty.
pub open spec fn when<A>(c: bool, x: A) -> Seq<A> {
    if c {
        seq![x]
    } else {
        seq![]
    }
}

/// A result of a link type: valid exactly when there are no errors.
pub open spec fn outcome(t: Option<DataLinkType>, size: usize, errors: Seq<ErrorView>, warnings: Seq<WarningView>) -> ValidationView {
    (errors.len() == 0, t, size, errors, warnings)
}

/// The big-endian 16-bit value of `d[i]`, `d[i + 1]`.
pub open spec fn be16_at(d: Seq<u8>, i: int) -> int {
    (d[i] as int) * 256 + (d[i + 1] as int)
}

// ---- BACnet/IP ----

/// The errors of a BACnet/IP frame of at least four octets.
pub open spec fn bip_errors(d: Seq<u8>) -> Seq<ErrorView> {
    when(d[0] != 0x81, ErrorView::InvalidPreamble { expected: seq![0x81u8], found: seq![d[0]] })
        + when(d[1] > 0x0D, ErrorView::InvalidFrameType { value: d[1] })
        + when(be16_at(d, 2) != d.len(), ErrorView::PayloadSizeMismatch { declared: be16_at(d, 2) as usize, actual: d.len() as usize })
        + when(d.len() > 1497, ErrorView::FrameTooLong { size: d.len() as usize, maximum: 1497 })
}

/// The warnings about a BACnet/IP frame of at least four octets.
pub open spec fn bip_warnings(d: Seq<u8>) -> Seq<WarningView> {
    if d[1] == 0x0C {
        seq![WarningView::SecurityWarning { reason: "Secure BVLL should use proper encryption"@ }]
    } else if d[1] == 0x01 || d[1] == 0x08 {
        seq![WarningView::SecurityWarning { reason: "Table modification functions should be authenticated"@ }]
    } else {
        seq![]
    }
}

/// The validation of a BACnet/IP frame.
pub open spec fn bip_validation(d: Seq<u8>) -> ValidationView {
    if d.len() < 4 {
        outcome(Some(DataLinkType::BacnetIp), d.len() as usize, seq![ErrorView::FrameTooShort { size: d.len() as usize, minimum: 4 }], seq![])
    } else {
        outcome(Some(DataLinkType::BacnetIp), d.len() as usize, bip_errors(d), bip_warnings(d))
    }
}

/// A result with nothing found yet.
fn start_result(link_type: Option<DataLinkType>, size: usize) -> (r: ValidationResult)
    ensures
        r@ == outcome(link_type, size, seq![], seq![]),
{
    let r = ValidationResult { is_valid: true, link_type, frame_size: size, errors: Vec::new(), warnings: Vec::new() };
    assert(r@ =~= outcome(link_type, size, seq![], seq![]));
    r
}

/// Records an error: the frame is invalid.
fn add_error(result: &mut ValidationResult, e: ValidationError)
    ensures
        final(result)@ == (false, old(result)@.1, old(result)@.2, old(result)@.3.push(e@), old(result)@.4),
{
    let ghost v = e@;
    result.is_valid = false;
    result.errors.push(e);
    assert(errors_view(result.errors@) =~= errors_view(old(result).errors@).push(v));
}

/// Records a warning.
fn add_warning(result: &mut ValidationResult, w: ValidationWarning)
    ensures
        final(result)@ == (old(result)@.0, old(result)@.1, old(result)@.2, old(result)@.3, old(result)@.4.push(w@)),
{
    let ghost v = w@;
    result.warnings.push(w);
    assert(warnings_view(result.warnings@) =~= warnings_view(old(result).warnings@).push(v));
}

/// A one-octet vector.
fn one(a: u8) -> (r: Vec<u8>)
    ensures
        r@ == seq![a],
{
    let mut v: Vec<u8> = Vec::new();
    v.push(a);
    assert(v@ =~= seq![a]);
    v
}

/// A two-octet vector.
fn two(a: u8, b: u8) -> (r: Vec<u8>)
    ensures
        r@ == seq![a, b],
{
    let mut v: Vec<u8> = Vec::new();
    v.push(a);
    v.push(b);
    assert(v@ =~= seq![a, b]);
    v
}

/// Validates a BACnet/IP frame: the BVLC type 0x81, a known function
/// (0x00-0x0D), a length field equal to the frame size, at most 1497
/// octets; functions that change tables or claim security are warned of.
pub fn validate_bacnet_ip_frame(data: &[u8]) -> (r: ValidationResult)
    ensures
        r@ == bip_validation(data@),
{
    let mut result = start_result(Some(DataLinkType::BacnetIp), data.len());
    if data.len() < 4 {
        add_error(&mut result, ValidationError::FrameTooShort { size: data.len(), minimum: 4 });
        assert(result@ =~= bip_validation(data@));
        return result;
    }
    let ghost d = data@;
    let ghost e0 = when(d[0] != 0x81, ErrorView::InvalidPreamble { expected: seq![0x81u8], found: seq![d[0]] });
    let ghost e1 = when(d[1] > 0x0D, ErrorView::InvalidFrameType { value: d[1] });
    let ghost e2 = when(be16_at(d, 2) != d.len(), ErrorView::PayloadSizeMismatch { declared: be16_at(d, 2) as usize, actual: d.len() as usize });
    let ghost e3 = when(d.len() > 1497, ErrorView::FrameTooLong { size: d.len() as usize, maximum: 1497 });
    if data[0] != 0x81 {
        add_error(&mut result, ValidationError::InvalidPreamble { expected: one(0x81), found: one(data[0]) });
    }
    assert(result@.3 =~= e0);
    if data[1] > 0x0D {
        add_error(&mut result, ValidationError::InvalidFrameType { value: data[1] });
    }
    assert(result@.3 =~= e0 + e1);
    let declared_length: usize = (data[2] as usize) * 256 + (data[3] as usize);
    if declared_length != data.len() {
        add_error(&mut result, ValidationError::PayloadSizeMismatch { declared: declared_length, actual: data.len() });
    }
    assert(result@.3 =~= e0 + e1 + e2);
    if data.len() > 1497 {
        add_error(&mut result, ValidationError::FrameTooLong { size: data.len(), maximum: 1497 });
    }
    assert(result@.3 =~= bip_errors(d));
    if data[1] == 0x0C {
        add_warning(&mut result, ValidationWarning::SecurityWarning { reason: chars_of("Secure BVLL should use proper encryption") });
    } else if data[1] == 0x01 || data[1] == 0x08 {
        add_warning(&mut result, ValidationWarning::SecurityWarning { reason: chars_of("Table modification functions should be authenticated") });
    }
    assert(result@.4 =~= bip_warnings(d));
    result
}

// ---- Ethernet ----

/// The text naming a wrong Ethernet type.
pub open spec fn ether_type_reason(t: nat) -> Seq<char> {
    "Invalid Ethernet type: 0x"@ + hex_text(t, 4) + ", expected 0x82DC"@
}

/// The text naming a wrong LLC header.
pub open spec fn llc_reason(a: u8, b: u8, c: u8) -> Seq<char> {
    "Invalid LLC header: ["@ + hex_text(a as nat, 2) + ", "@ + hex_text(b as nat, 2) + ", "@ + hex_text(c as nat, 2)
        + "], expected [82, 82, 03]"@
}

/// The errors of an Ethernet frame of at least 17 octets.
pub open spec fn ethernet_errors(d: Seq<u8>) -> Seq<ErrorView> {
    when(d.len() > 1514, ErrorView::FrameTooLong { size: d.len() as usize, maximum: 1514 })
        + when(be16_at(d, 12) != 0x82DC, ErrorView::InvalidHeader { reason: ether_type_reason(be16_at(d, 12) as nat) })
        + when(!(d[14] == 0x82 && d[15] == 0x82 && d[16] == 0x03), ErrorView::InvalidHeader { reason: llc_reason(d[14], d[15], d[16]) })
}

/// Whether the first six octets are all 0xFF.
pub open spec fn broadcast_dest(d: Seq<u8>) -> bool {
    forall|i: int| 0 <= i < 6 ==> d[i] == 0xFF
}

/// The warnings about an Ethernet frame of at least 17 octets.
pub open spec fn ethernet_warnings(d: Seq<u8>) -> Seq<WarningView> {
    when(d[0] % 2 == 1 && !broadcast_dest(d), WarningView::NonStandardConfiguration { reason: "Multicast address used instead of broadcast"@ })
        + when(d.len() == 60, WarningView::UnusualFrameSize { size: 60 })
}

/// The validation of an Ethernet frame.
pub open spec fn ethernet_validation(d: Seq<u8>) -> ValidationView {
    if d.len() < 17 {
        outcome(Some(DataLinkType::Ethernet), d.len() as usize, seq![ErrorView::FrameTooShort { size: d.len() as usize, minimum: 17 }], seq![])
    } else {
        outcome(Some(DataLinkType::Ethernet), d.len() as usize, ethernet_errors(d), ethernet_warnings(d))
    }
}

/// The text naming a wrong Ethernet type.
fn ether_type_text(t: u16) -> (r: String)
    ensures
        r@ == ether_type_reason(t as nat),
{
    let mut h: Vec<char> = Vec::new();
    push_hex(&mut h, t as u64, 4);
    let hs = text_of(&h);
    assert(h@ =~= hex_text(t as nat, 4));
    concat(concat(chars_of("Invalid Ethernet type: 0x"), hs.as_str()), ", expected 0x82DC")
}

/// The text naming a wrong LLC header.
fn llc_text(a: u8, b: u8, c: u8) -> (r: String)
    ensures
        r@ == llc_reason(a, b, c),
{
    let mut ha: Vec<char> = Vec::new();
    push_hex(&mut ha, a as u64, 2);
    let mut hb: Vec<char> = Vec::new();
    push_hex(&mut hb, b as u64, 2);
    let mut hc: Vec<char> = Vec::new();
    push_hex(&mut hc, c as u64, 2);
    assert(ha@ =~= hex_text(a as nat, 2));
    assert(hb@ =~= hex_text(b as nat, 2));
    assert(hc@ =~= hex_text(c as nat, 2));
    let s = concat(chars_of("Invalid LLC header: ["), text_of(&ha).as_str());
    let s = concat(s, ", ");
    let s = concat(s, text_of(&hb).as_str());
    let s = concat(s, ", ");
    let s = concat(s, text_of(&hc).as_str());
    concat(s, "], expected [82, 82, 03]")
}

/// Validates a BACnet/Ethernet frame: 17 to 1514 octets, Ethernet type
/// 0x82DC, LLC header 82 82 03; a multicast (not broadcast) destination
/// and a frame of exactly 60 octets are warned of.
pub fn validate_ethernet_frame(data: &[u8]) -> (r: ValidationResult)
    ensures
        r@ == ethernet_validation(data@),
{
    let mut result = start_result(Some(DataLinkType::Ethernet), data.len());
    if data.len() < 17 {
        add_error(&mut result, ValidationError::FrameTooShort { size: data.len(), minimum: 17 });
        assert(result@ =~= ethernet_validation(data@));
        return result;
    }
    let ghost d = data@;
    let ghost e0 = when(d.len() > 1514, ErrorView::FrameTooLong { size: d.len() as usize, maximum: 1514 });
    let ghost e1 = when(be16_at(d, 12) != 0x82DC, ErrorView::InvalidHeader { reason: ether_type_reason(be16_at(d, 12) as nat) });
    if data.len() > 1514 {
        add_error(&mut result, ValidationError::FrameTooLong { size: data.len(), maximum: 1514 });
    }
    assert(result@.3 =~= e0);
    let ether_type: u16 = (data[12] as u16) * 256 + (data[13] as u16);
    if ether_type != 0x82DC {
        add_error(&mut result, ValidationError::InvalidHeader { reason: ether_type_text(ether_type) });
    }
    assert(result@.3 =~= e0 + e1);
    if !(data[14] == 0x82 && data[15] == 0x82 && data[16] == 0x03) {
        add_error(&mut result, ValidationError::InvalidHeader { reason: llc_text(data[14], data[15], data[16]) });
    }
    assert(result@.3 =~= ethernet_errors(d));
    let ghost w0 = when(d[0] % 2 == 1 && !broadcast_dest(d), WarningView::NonStandardConfiguration { reason: "Multicast address used instead of broadcast"@ });
    if data[0] % 2 == 1 {
        let bcast = data[0] == 0xFF && data[1] == 0xFF && data[2] == 0xFF && data[3] == 0xFF && data[4] == 0xFF && data[5] == 0xFF;
        assert(bcast <==> broadcast_dest(d)) by {
            if broadcast_dest(d) {
                assert(d[0] == 0xFF && d[1] == 0xFF && d[2] == 0xFF && d[3] == 0xFF && d[4] == 0xFF && d[5] == 0xFF);
            }
        }
        if !bcast {
            add_warning(&mut result, ValidationWarning::NonStandardConfiguration { reason: chars_of("Multicast address used instead of broadcast") });
        }
    }
    assert(result@.4 =~= w0);
    if data.len() == 60 {
        add_warning(&mut result, ValidationWarning::UnusualFrameSize { size: data.len() });
    }
    assert(result@.4 =~= ethernet_warnings(d));
    result
}

// ---- MS/TP ----

/// The declared size of an MS/TP frame with data length `len`.
pub open spec fn mstp_expected_size(len: int) -> int {
    8 + len + if len > 0 { 2int } else { 0int }
}

/// The errors of an MS/TP frame's preamble, frame type and source.
pub open spec fn mstp_head_errors(d: Seq<u8>) -> Seq<ErrorView> {
    when(d[0] != 0x55 || d[1] != 0xFF, ErrorView::InvalidPreamble { expected: seq![0x55u8, 0xFFu8], found: seq![d[0], d[1]] })
        + when(7 < d[2] < 128, ErrorView::InvalidFrameType { value: d[2] })
        + when(d[4] == 255, ErrorView::InvalidAddress { address: "255"@, reason: "Source address cannot be broadcast (255)"@ })
}

/// The errors of an MS/TP frame's data length, data CRC and size.
pub open spec fn mstp_tail_errors(d: Seq<u8>) -> Seq<ErrorView> {
    let len = be16_at(d, 5);
    let size = mstp_expected_size(len);
    when(len > 501, ErrorView::InvalidHeader { reason: "Data length "@ + dec_text(len as nat) + " exceeds maximum 501"@ })
        + when(d.len() != size, ErrorView::PayloadSizeMismatch { declared: size as usize, actual: d.len() as usize })
        + if len > 0 && d.len() >= size {
            let rcv = (d[8 + len + 1] as int) * 256 + (d[8 + len] as int);
            let calc = crc16_mstp_spec(d.subrange(8, 8 + len));
            when(rcv != calc, ErrorView::CrcMismatch { expected: rcv as u32, calculated: calc as u32 })
        } else {
            seq![]
        }
}

/// The errors of an MS/TP frame of at least eight octets.
pub open spec fn mstp_errors(d: Seq<u8>) -> Seq<ErrorView> {
    mstp_head_errors(d) + mstp_tail_errors(d)
}

/// The warnings about an MS/TP frame of at least eight octets.
pub open spec fn mstp_warnings(d: Seq<u8>) -> Seq<WarningView> {
    mstp_head_warnings(d) + mstp_tail_warnings(d)
}

/// The warning about an MS/TP header CRC octet other than the Annex G CRC
/// of the header.
pub open spec fn mstp_tail_warnings(d: Seq<u8>) -> Seq<WarningView> {
    let hcrc = header_crc_spec(d.subrange(2, 7));
    when(d[7] != hcrc, WarningView::NonStandardConfiguration {
        reason: "Header CRC "@ + dec_text(d[7] as nat) + " differs from the calculated "@ + dec_text(hcrc as nat),
    })
}

/// The warnings about an MS/TP frame's frame type and addresses.
pub open spec fn mstp_head_warnings(d: Seq<u8>) -> Seq<WarningView> {
    when(d[2] >= 128, WarningView::NonStandardConfiguration { reason: "Proprietary frame type: "@ + dec_text(d[2] as nat) })
        + when(d[4] <= 127 && 128 <= d[3] <= 254 && d[2] != 3, WarningView::NonStandardConfiguration {
            reason: "Master communicating with slave without Test Request"@,
        })
}

/// The validation of an MS/TP frame.
pub open spec fn mstp_validation(d: Seq<u8>) -> ValidationView {
    if d.len() < 8 {
        outcome(Some(DataLinkType::MsTP), d.len() as usize, seq![ErrorView::FrameTooShort { size: d.len() as usize, minimum: 8 }], seq![])
    } else {
        outcome(Some(DataLinkType::MsTP), d.len() as usize, mstp_errors(d), mstp_warnings(d))
    }
}

/// A string of the decimal digits of `n` after `prefix`.
fn prefixed_decimal(prefix: &str, n: u64) -> (r: String)
    ensures
        r@ == prefix@ + dec_text(n as nat),
{
    let mut digits: Vec<char> = Vec::new();
    push_decimal(&mut digits, n);
    assert(digits@ =~= dec_text(n as nat));
    concat(chars_of(prefix), text_of(&digits).as_str())
}

/// A string of the decimal digits of `n`, after `prefix` and before `suffix`.
fn decimal_text(prefix: &str, n: u64, suffix: &str) -> (r: String)
    ensures
        r@ == prefix@ + dec_text(n as nat) + suffix@,
{
    let mut digits: Vec<char> = Vec::new();
    push_decimal(&mut digits, n);
    assert(digits@ =~= dec_text(n as nat));
    concat(concat(chars_of(prefix), text_of(&digits).as_str()), suffix)
}

/// A string of `prefix`, the decimal digits of `x`, `middle` and the
/// decimal digits of `y`.
fn two_decimals(prefix: &str, x: u64, middle: &str, y: u64) -> (r: String)
    ensures
        r@ == prefix@ + dec_text(x as nat) + middle@ + dec_text(y as nat),
{
    let mut digits: Vec<char> = Vec::new();
    push_decimal(&mut digits, y);
    assert(digits@ =~= dec_text(y as nat));
    concat(decimal_text(prefix, x, middle), text_of(&digits).as_str())
}

/// Checks an MS/TP frame's preamble, frame type and addresses.
fn check_mstp_head(result: &mut ValidationResult, data: &[u8])
    requires
        data@.len() >= 8,
    ensures
        final(result)@.0 == (old(result)@.0 && mstp_head_errors(data@).len() == 0),
        final(result)@.1 == old(result)@.1,
        final(result)@.2 == old(result)@.2,
        final(result)@.3 == old(result)@.3 + mstp_head_errors(data@),
        final(result)@.4 == old(result)@.4 + mstp_head_warnings(data@),
{
    let ghost d = data@;
    let ghost e0 = when(d[0] != 0x55 || d[1] != 0xFF, ErrorView::InvalidPreamble { expected: seq![0x55u8, 0xFFu8], found: seq![d[0], d[1]] });
    let ghost e1 = when(7 < d[2] < 128, ErrorView::InvalidFrameType { value: d[2] });
    let ghost w0 = when(d[2] >= 128, WarningView::NonStandardConfiguration { reason: "Proprietary frame type: "@ + dec_text(d[2] as nat) });
    if data[0] != 0x55 || data[1] != 0xFF {
        add_error(result, ValidationError::InvalidPreamble { expected: two(0x55, 0xFF), found: two(data[0], data[1]) });
    }
    assert(result@.3 =~= old(result)@.3 + e0);
    let frame_type = data[2];
    if frame_type > 7 && frame_type < 128 {
        add_error(result, ValidationError::InvalidFrameType { value: frame_type });
    } else if frame_type >= 128 {
        add_warning(result, ValidationWarning::NonStandardConfiguration { reason: prefixed_decimal("Proprietary frame type: ", frame_type as u64) });
    }
    assert(result@.3 =~= old(result)@.3 + (e0 + e1));
    assert(result@.4 =~= old(result)@.4 + w0);
    let dest_addr = data[3];
    let src_addr = data[4];
    if src_addr == 255 {
        add_error(result, ValidationError::InvalidAddress {
            address: chars_of("255"),
            reason: chars_of("Source address cannot be broadcast (255)"),
        });
    }
    assert(result@.3 =~= old(result)@.3 + mstp_head_errors(d));
    if src_addr <= 127 && dest_addr >= 128 && dest_addr <= 254 && frame_type != 3 {
        add_warning(result, ValidationWarning::NonStandardConfiguration {
            reason: chars_of("Master communicating with slave without Test Request"),
        });
    }
    assert(result@.4 =~= old(result)@.4 + mstp_head_warnings(d));
}

/// Checks an MS/TP frame's data length, CRCs and size.
#[verifier::rlimit(30)]
fn check_mstp_tail(result: &mut ValidationResult, data: &[u8])
    requires
        data@.len() >= 8,
    ensures
        final(result)@.0 == (old(result)@.0 && mstp_tail_errors(data@).len() == 0),
        final(result)@.1 == old(result)@.1,
        final(result)@.2 == old(result)@.2,
        final(result)@.3 == old(result)@.3 + mstp_tail_errors(data@),
        final(result)@.4 == old(result)@.4 + mstp_tail_warnings(data@),
{
    let ghost d = data@;
    let ghost len_s = be16_at(d, 5);
    let ghost size_s = mstp_expected_size(len_s);
    let ghost e3 = when(len_s > 501, ErrorView::InvalidHeader { reason: "Data length "@ + dec_text(len_s as nat) + " exceeds maximum 501"@ });
    let ghost e5 = when(d.len() != size_s, ErrorView::PayloadSizeMismatch { declared: size_s as usize, actual: d.len() as usize });
    let data_length: u16 = (data[5] as u16) * 256 + (data[6] as u16);
    if data_length > 501 {
        add_error(result, ValidationError::InvalidHeader {
            reason: decimal_text("Data length ", data_length as u64, " exceeds maximum 501"),
        });
    }
    assert(result@.3 =~= old(result)@.3 + e3);
    let header_crc = data[7];
    let header_bytes: [u8; 5] = [data[2], data[3], data[4], data[5], data[6]];
    assert(header_bytes@ =~= d.subrange(2, 7));
    let calculated_crc = calculate_header_crc(&header_bytes);
    if header_crc != calculated_crc {
        add_warning(result, ValidationWarning::NonStandardConfiguration {
            reason: two_decimals("Header CRC ", header_crc as u64, " differs from the calculated ", calculated_crc as u64),
        });
    }
    assert(result@.4 =~= old(result)@.4 + mstp_tail_warnings(d));
    let expected_size: usize = 8 + data_length as usize + if data_length > 0 { 2 } else { 0 };
    if data.len() != expected_size {
        add_error(result, ValidationError::PayloadSizeMismatch { declared: expected_size, actual: data.len() });
    }
    assert(result@.3 =~= old(result)@.3 + (e3 + e5));
    if data_length > 0 && data.len() >= expected_size {
        let data_end: usize = 8 + data_length as usize;
        let frame_data = vstd::slice::slice_subrange(data, 8, data_end);
        let crc_low = data[data_end];
        let crc_high = data[data_end + 1];
        let received_crc: u16 = (crc_high as u16) * 256 + (crc_low as u16);
        let calculated = crc16_mstp(frame_data);
        if received_crc != calculated {
            add_error(result, ValidationError::CrcMismatch { expected: received_crc as u32, calculated: calculated as u32 });
        }
    }
    assert(result@.3 =~= old(result)@.3 + mstp_tail_errors(d));
}

/// Validates an MS/TP frame: the preamble 55 FF, a standard frame type
/// (a proprietary one, 128 and up, is warned of), a source other than
/// the broadcast address, a data length of at most 501, a size matching
/// the data length, and the data CRC; a master sending to a slave other
/// than with a Test Request is warned of, and so is a header CRC octet
/// other than the Annex G CRC of the header (a warning, not an error: a
/// token frame whose header CRC octet is 0xDB passes without a CRC error).
pub fn validate_mstp_frame(data: &[u8]) -> (r: ValidationResult)
    ensures
        r@ == mstp_validation(data@),
{
    let mut result = start_result(Some(DataLinkType::MsTP), data.len());
    if data.len() < 8 {
        add_error(&mut result, ValidationError::FrameTooShort { size: data.len(), minimum: 8 });
        assert(result@ =~= mstp_validation(data@));
        return result;
    }
    check_mstp_head(&mut result, data);
    check_mstp_tail(&mut result, data);
    assert(result@.3 =~= mstp_errors(data@));
    assert(result@.4 =~= mstp_warnings(data@));
    result
}

/// The validation of a frame of unknown kind: MS/TP if it starts with
/// 55 FF, BACnet/IP if it starts with 81, Ethernet if its Ethernet type
/// is 0x82DC; otherwise it is invalid.
pub open spec fn frame_validation(d: Seq<u8>) -> ValidationView {
    if d.len() == 0 {
        outcome(None, 0, seq![ErrorView::FrameTooShort { size: 0, minimum: 1 }], seq![])
    } else if d.len() >= 2 && d[0] == 0x55 && d[1] == 0xFF {
        mstp_validation(d)
    } else if d[0] == 0x81 {
        bip_validation(d)
    } else if d.len() >= 14 && be16_at(d, 12) == 0x82DC {
        ethernet_validation(d)
    } else {
        outcome(None, d.len() as usize, seq![ErrorView::InvalidHeader { reason: "Unable to determine frame type"@ }], seq![])
    }
}

/// Validates a frame, telling its kind from its first octets.
pub fn validate_frame(data: &[u8]) -> (r: ValidationResult)
    ensures
        r@ == frame_validation(data@),
{
    if data.len() == 0 {
        let mut result = start_result(None, 0);
        add_error(&mut result, ValidationError::FrameTooShort { size: 0, minimum: 1 });
        assert(result@ =~= frame_validation(data@));
        return result;
    }
    if data.len() >= 2 && data[0] == 0x55 && data[1] == 0xFF {
        return validate_mstp_frame(data);
    }
    if data[0] == 0x81 {
        return validate_bacnet_ip_frame(data);
    }
    if data.len() >= 14 {
        let ether_type: u16 = (data[12] as u16) * 256 + (data[13] as u16);
        if ether_type == 0x82DC {
            return validate_ethernet_frame(data);
        }
    }
    let mut result = start_result(None, data.len());
    add_error(&mut result, ValidationError::InvalidHeader { reason: chars_of("Unable to determine frame type") });
    assert(result@ =~= frame_validation(data@));
    result
}

// ---- Patterns ----

/// Patterns found in a frame.
#[derive(Debug, Clone)]
pub enum Pattern {
    Padding { start: usize, length: usize, value: u8 },
    RepeatedSequence { start: usize, pattern: Vec<u8>, count: usize },
    AsciiText { start: usize, text: String },
    Suspicious { description: String },
}

/// The abstract content of a pattern.
pub enum PatternView {
    Padding { start: usize, length: usize, value: u8 },
    RepeatedSequence { start: usize, pattern: Seq<u8>, count: usize },
    AsciiText { start: usize, text: Seq<char> },
    Suspicious { description: Seq<char> },
}

impl View for Pattern {
    type V = PatternView;

    open spec fn view(&self) -> PatternView {
        match self {
            Pattern::Padding { start, length, value } => PatternView::Padding { start: *start, length: *length, value: *value },
            Pattern::RepeatedSequence { start, pattern, count } => PatternView::RepeatedSequence { start: *start, pattern: pattern@, count: *count },
            Pattern::AsciiText { start, text } => PatternView::AsciiText { start: *start, text: text@ },
            Pattern::Suspicious { description } => PatternView::Suspicious { description: description@ },
        }
    }
}

/// The views of patterns.
pub open spec fn patterns_view(s: Seq<Pattern>) -> Seq<PatternView> {
    s.map_values(|p: Pattern| p@)
}

/// How many octets from `i` down to 1 equal `pad` without a break.
pub open spec fn run_back(d: Seq<u8>, i: int, pad: u8) -> nat
    decreases i,
{
    if i > 0 && i < d.len() && d[i] == pad {
        1 + run_back(d, i - 1, pad)
    } else {
        0
    }
}

/// The trailing padding of a frame of at least four octets: the run of
/// octets equal to the last one, counted back to (not including) the
/// first octet, if it is four or longer.
pub open spec fn padding_patterns(d: Seq<u8>) -> Seq<PatternView> {
    if d.len() >= 4 {
        let pad = d.last();
        let n = run_back(d, d.len() - 1, pad);
        when(n >= 4, PatternView::Padding { start: (d.len() - n) as usize, length: n as usize, value: pad })
    } else {
        seq![]
    }
}

/// Whether an octet is printable ASCII.
pub open spec fn printable(b: u8) -> bool {
    0x20 <= b <= 0x7E
}

/// The text patterns of `d` from position `i` on, with a run of printable
/// octets `run` begun at `start`: every maximal run of four or more
/// printable octets, with where it starts.
pub open spec fn ascii_scan(d: Seq<u8>, i: int, start: int, run: Seq<u8>) -> Seq<PatternView>
    decreases d.len() - i,
{
    if i >= d.len() {
        when(run.len() >= 4, PatternView::AsciiText { start: start as usize, text: latin1_decode(run) })
    } else if printable(d[i]) {
        ascii_scan(d, i + 1, if run.len() == 0 { i } else { start }, run.push(d[i]))
    } else if run.len() > 0 {
        when(run.len() >= 4, PatternView::AsciiText { start: start as usize, text: latin1_decode(run) }) + ascii_scan(d, i + 1, 0, seq![])
    } else {
        ascii_scan(d, i + 1, 0, seq![])
    }
}

/// The suspicious patterns: for a frame of eight or more octets, all
/// zeros before the padding (at least eight of them), and a start of
/// 00 01 02 03 04 05 06 07.
pub open spec fn suspicious_patterns(d: Seq<u8>, first: Option<PatternView>) -> Seq<PatternView> {
    if d.len() >= 8 {
        let npl: int = match first {
            Some(PatternView::Padding { start, .. }) => start as int,
            _ => d.len() as int,
        };
        when(npl >= 8 && forall|i: int| 0 <= i < npl ==> d[i] == 0, PatternView::Suspicious { description: "Frame contains all zeros"@ })
            + when(forall|i: int| 0 <= i < 8 ==> d[i] == i, PatternView::Suspicious { description: "Frame starts with sequential test pattern"@ })
    } else {
        seq![]
    }
}

/// The patterns of a frame: padding, text runs, then suspicious ones.
pub open spec fn frame_patterns(d: Seq<u8>) -> Seq<PatternView> {
    let p = padding_patterns(d) + ascii_scan(d, 0, 0, seq![]);
    p + suspicious_patterns(d, if p.len() > 0 { Some(p[0]) } else { None })
}


/// The views of two pattern lists joined.
proof fn lemma_patterns_view_add(a: Seq<Pattern>, b: Seq<Pattern>)
    ensures
        patterns_view(a + b) == patterns_view(a) + patterns_view(b),
{
    assert(patterns_view(a + b) =~= patterns_view(a) + patterns_view(b));
}

/// A run counted back from `i` is at most `i` long.
proof fn lemma_run_back_bound(d: Seq<u8>, i: int, pad: u8)
    requires
        i >= 0,
    ensures
        run_back(d, i, pad) <= i,
    decreases i,
{
    if i > 0 && i < d.len() && d[i] == pad {
        lemma_run_back_bound(d, i - 1, pad);
    }
}

/// A text scan gives only text patterns.
proof fn lemma_text_runs_not_padding(d: Seq<u8>, i: int, start: int, run: Seq<u8>)
    ensures
        forall|k: int| 0 <= k < ascii_scan(d, i, start, run).len() ==> ascii_scan(d, i, start, run)[k] is AsciiText,
    decreases d.len() - i,
{
    if i >= d.len() {
    } else if printable(d[i]) {
        lemma_text_runs_not_padding(d, i + 1, if run.len() == 0 { i } else { start }, run.push(d[i]));
    } else if run.len() > 0 {
        lemma_text_runs_not_padding(d, i + 1, 0, seq![]);
    } else {
        lemma_text_runs_not_padding(d, i + 1, 0, seq![]);
    }
}

/// The trailing padding pattern of a frame, if there is one.
fn padding_of(data: &[u8]) -> (r: Vec<Pattern>)
    ensures
        patterns_view(r@) == padding_patterns(data@),
{
    let mut r: Vec<Pattern> = Vec::new();
    if data.len() >= 4 {
        let mut i: usize = data.len() - 1;
        let pad = data[i];
        let mut pad_len: usize = 0;
        while i > 0 && data[i] == pad
            invariant
                i < data@.len(),
                pad == data@.last(),
                pad_len + i == data@.len() - 1,
                run_back(data@, data@.len() - 1, pad) == pad_len + run_back(data@, i as int, pad),
            decreases i,
        {
            pad_len = pad_len + 1;
            i = i - 1;
        }
        if pad_len >= 4 {
            r.push(Pattern::Padding { start: i + 1, length: pad_len, value: pad });
        }
        assert(patterns_view(r@) =~= padding_patterns(data@));
    } else {
        assert(patterns_view(r@) =~= padding_patterns(data@));
    }
    r
}

/// The text patterns of a frame.
fn text_runs_of(data: &[u8]) -> (r: Vec<Pattern>)
    ensures
        patterns_view(r@) == ascii_scan(data@, 0, 0, seq![]),
{
    let mut out: Vec<Pattern> = Vec::new();
    let mut ascii_start: Option<usize> = None;
    let mut run: Vec<u8> = Vec::new();
    let mut i: usize = 0;
    while i < data.len()
        invariant
            i <= data@.len(),
            (run@.len() == 0) == (ascii_start is None),
            ascii_start matches Some(s) ==> s < i,
            patterns_view(out@) + ascii_scan(data@, i as int, match ascii_start { Some(s) => s as int, None => 0 }, run@)
                == ascii_scan(data@, 0, 0, seq![]),
        decreases data@.len() - i,
    {
        let b = data[i];
        let ghost st: int = match ascii_start { Some(s) => s as int, None => 0 };
        let ghost before = out@;
        let ghost old_run = run@;
        if 0x20 <= b && b <= 0x7E {
            if ascii_start.is_none() {
                ascii_start = Some(i);
            }
            run.push(b);
            proof {
                assert(ascii_scan(data@, i as int, st, old_run)
                    == ascii_scan(data@, i + 1, if old_run.len() == 0 { i as int } else { st }, old_run.push(b)));
                assert(run@ == old_run.push(b));
                assert(patterns_view(out@) + ascii_scan(data@, i + 1, match ascii_start { Some(s) => s as int, None => 0 }, run@)
                    == ascii_scan(data@, 0, 0, seq![]));
            }
        } else if run.len() > 0 {
            let ghost old_run = run@;
            if run.len() >= 4 {
                let s = match ascii_start { Some(s) => s, None => 0 };
                let text = latin1_text(run.as_slice());
                out.push(Pattern::AsciiText { start: s, text });
            }
            let ghost w = when(old_run.len() >= 4, PatternView::AsciiText { start: st as usize, text: latin1_decode(old_run) });
            proof {
                assert(patterns_view(out@) =~= patterns_view(before) + w);
                assert(ascii_scan(data@, i as int, st, old_run) == w + ascii_scan(data@, i + 1, 0, seq![]));
                assert(patterns_view(before) + (w + ascii_scan(data@, i + 1, 0, seq![]))
                    =~= patterns_view(before) + w + ascii_scan(data@, i + 1, 0, seq![]));
            }
            ascii_start = None;
            run.clear();
            proof {
                assert(run@ =~= seq![]);
                assert(patterns_view(out@) + ascii_scan(data@, i + 1, 0, run@) == ascii_scan(data@, 0, 0, seq![]));
            }
        } else {
            proof {
                assert(ascii_scan(data@, i as int, st, old_run) == ascii_scan(data@, i + 1, 0, seq![]));
                assert(old_run =~= seq![]);
                assert(patterns_view(out@) + ascii_scan(data@, i + 1, 0, run@) == ascii_scan(data@, 0, 0, seq![]));
            }
        }
        i = i + 1;
    }
    if run.len() >= 4 {
        let s = match ascii_start { Some(s) => s, None => 0 };
        let text = latin1_text(run.as_slice());
        out.push(Pattern::AsciiText { start: s, text });
    }
    proof {
        assert(patterns_view(out@) =~= ascii_scan(data@, 0, 0, seq![]));
    }
    out
}

/// Whether the first `n` octets are all zero.
fn all_zero(data: &[u8], n: usize) -> (r: bool)
    requires
        n <= data@.len(),
    ensures
        r == forall|i: int| 0 <= i < n ==> data@[i] == 0,
{
    let mut i: usize = 0;
    while i < n
        invariant
            i <= n,
            n <= data@.len(),
            forall|j: int| 0 <= j < i ==> data@[j] == 0,
        decreases n - i,
    {
        if data[i] != 0 {
            return false;
        }
        i = i + 1;
    }
    true
}

/// Finds the patterns in a frame: trailing padding, runs of four or more
/// printable ASCII octets, a frame of zeros and a sequential test pattern.
pub fn detect_patterns(data: &[u8]) -> (r: Vec<Pattern>)
    ensures
        patterns_view(r@) == frame_patterns(data@),
{
    let mut patterns = padding_of(data);
    let mut text = text_runs_of(data);
    let ghost pad = patterns@;
    let ghost txt = text@;
    patterns.append(&mut text);
    proof {
        lemma_patterns_view_add(pad, txt);
    }
    let ghost p = patterns@;
    let mut extra: Vec<Pattern> = Vec::new();
    if data.len() >= 8 {
        let non_padding_len: usize = if patterns.len() > 0 {
            match &patterns[0] {
                Pattern::Padding { start, .. } => *start,
                _ => data.len(),
            }
        } else {
            data.len()
        };
        let ghost npl: int = match (if patterns_view(p).len() > 0 { Some(patterns_view(p)[0]) } else { None }) {
            Some(PatternView::Padding { start, .. }) => start as int,
            _ => data@.len() as int,
        };
        proof {
            assert(patterns_view(p).len() == p.len());
            if p.len() > 0 {
                assert(patterns_view(p)[0] == p[0]@);
            }
            assert(non_padding_len == npl);
            if pad.len() > 0 {
                assert(patterns_view(p)[0] == patterns_view(pad)[0]);
                lemma_run_back_bound(data@, data@.len() - 1, data@.last());
            } else {
                assert(patterns_view(p) == patterns_view(txt));
                if txt.len() > 0 {
                    assert(patterns_view(txt)[0] == txt[0]@);
                    lemma_text_runs_not_padding(data@, 0, 0, seq![]);
                    assert(ascii_scan(data@, 0, 0, seq![]).contains(patterns_view(txt)[0]));
                }
            }
            assert(npl <= data@.len());
        }
        let zeros = non_padding_len >= 8 && all_zero(data, non_padding_len);
        if zeros {
            extra.push(Pattern::Suspicious { description: chars_of("Frame contains all zeros") });
        }
        let ghost after_zeros = extra@;
        let sequential = data[0] == 0 && data[1] == 1 && data[2] == 2 && data[3] == 3 && data[4] == 4 && data[5] == 5
            && data[6] == 6 && data[7] == 7;
        proof {
            assert(sequential == forall|k: int| 0 <= k < 8 ==> data@[k] == k) by {
                if sequential {
                    assert forall|k: int| 0 <= k < 8 implies data@[k] == k by {
                        assert(k == 0 || k == 1 || k == 2 || k == 3 || k == 4 || k == 5 || k == 6 || k == 7);
                    }
                }
            }
        }
        if sequential {
            extra.push(Pattern::Suspicious { description: chars_of("Frame starts with sequential test pattern") });
        }
        proof {
            assert(patterns_view(after_zeros) =~= when(npl >= 8 && forall|k: int| 0 <= k < npl ==> data@[k] == 0,
                PatternView::Suspicious { description: "Frame contains all zeros"@ }));
        }
    }
    let ghost ex = extra@;
    patterns.append(&mut extra);
    proof {
        lemma_patterns_view_add(p, ex);
        assert(patterns_view(ex) =~= suspicious_patterns(data@, if patterns_view(p).len() > 0 { Some(patterns_view(p)[0]) } else { None }));
    }
    patterns
}


/// How many octets of `d` equal `b`.
pub open spec fn count_of(d: Seq<u8>, b: u8) -> nat
    decreases d.len(),
{
    if d.len() == 0 {
        0
    } else {
        count_of(d.drop_last(), b) + if d.last() == b { 1nat } else { 0nat }
    }
}

/// How many octets of `d` are 0x80 or above.
pub open spec fn count_high(d: Seq<u8>) -> nat
    decreases d.len(),
{
    if d.len() == 0 {
        0
    } else {
        count_high(d.drop_last()) + if d.last() >= 0x80 { 1nat } else { 0nat }
    }
}

/// The length of the run of equal octets that ends at index `i`.
pub open spec fn run_len(d: Seq<u8>, i: int) -> nat
    decreases i,
{
    if i <= 0 {
        1
    } else if d[i] == d[i - 1] {
        run_len(d, i - 1) + 1
    } else {
        1
    }
}

/// Whether `r` is the longest run of `d`: its octet and length, the first
/// such run where several are longest; `(0, 0)` for no octets.
pub open spec fn is_longest_run(d: Seq<u8>, r: (u8, usize)) -> bool {
    if d.len() == 0 {
        r == (0u8, 0usize)
    } else {
        &&& exists|k: int|
            0 <= k < d.len() && d[k] == r.0 && run_len(d, k) == r.1 && forall|j: int| 0 <= j < k ==> #[trigger] run_len(d, j) < r.1
        &&& forall|j: int| 0 <= j < d.len() ==> #[trigger] run_len(d, j) <= r.1
    }
}

/// Counts over the octets of a frame: how often each value occurs, the
/// zero octets, the octets 0x80 and above, and the longest run.
#[derive(Debug)]
pub struct ByteCounts {
    pub byte_distribution: Vec<u32>,
    pub null_bytes: usize,
    pub high_bytes: usize,
    pub longest_run: (u8, usize),
}

proof fn lemma_counts_bounded(d: Seq<u8>, b: u8)
    ensures
        count_of(d, b) <= d.len(),
        count_high(d) <= d.len(),
    decreases d.len(),
{
    if d.len() > 0 {
        lemma_counts_bounded(d.drop_last(), b);
    }
}

/// Count the octets of a frame.
pub fn count_bytes(data: &[u8]) -> (r: ByteCounts)
    requires
        data@.len() <= u32::MAX,
    ensures
        r.byte_distribution@.len() == 256,
        forall|b: int| 0 <= b < 256 ==> r.byte_distribution@[b] == count_of(data@, b as u8),
        r.null_bytes == count_of(data@, 0),
        r.high_bytes == count_high(data@),
        is_longest_run(data@, r.longest_run),
{
    let mut dist: Vec<u32> = Vec::new();
    let mut b: usize = 0;
    while b < 256
        invariant
            b <= 256,
            dist@.len() == b,
            forall|k: int| 0 <= k < b ==> dist@[k] == 0,
        decreases 256 - b,
    {
        dist.push(0);
        b = b + 1;
    }
    let ghost d = data@;
    assert(d.take(0) =~= Seq::<u8>::empty());
    let mut null_bytes: usize = 0;
    let mut high_bytes: usize = 0;
    let mut i: usize = 0;
    while i < data.len()
        invariant
            d == data@,
            d.len() <= u32::MAX,
            i <= d.len(),
            dist@.len() == 256,
            forall|k: int| 0 <= k < 256 ==> dist@[k] == count_of(d.take(i as int), k as u8),
            null_bytes == count_of(d.take(i as int), 0),
            high_bytes == count_high(d.take(i as int)),
        decreases d.len() - i,
    {
        let x = data[i];
        proof {
            assert(d.take(i as int + 1).drop_last() =~= d.take(i as int));
            assert(d.take(i as int + 1).last() == x);
            lemma_counts_bounded(d.take(i as int), x);
        }
        let c = dist[x as usize];
        dist.set(x as usize, c + 1);
        if x == 0 {
            null_bytes = null_bytes + 1;
        }
        if x >= 0x80 {
            high_bytes = high_bytes + 1;
        }
        i = i + 1;
    }
    assert(d.take(i as int) =~= d);
    let longest_run = longest_run_of(data);
    ByteCounts { byte_distribution: dist, null_bytes, high_bytes, longest_run }
}

/// The longest run of equal octets, the first where several are longest.
fn longest_run_of(data: &[u8]) -> (r: (u8, usize))
    ensures
        is_longest_run(data@, r),
{
    let ghost d = data@;
    if data.len() == 0 {
        return (0, 0);
    }
    let mut longest: (u8, usize) = (0, 0);
    let mut current_byte: u8 = data[0];
    let mut current_run: usize = 1;
    let mut i: usize = 1;
    while i < data.len()
        invariant
            d == data@,
            1 <= i <= d.len(),
            1 <= current_run <= i,
            current_byte == d[i - 1],
            forall|j: int| i - current_run <= j < i ==> #[trigger] run_len(d, j) == j - (i - current_run) + 1,
            i - current_run == 0 ==> longest == (0u8, 0usize),
            i - current_run > 0 ==> exists|k: int|
                0 <= k < i - current_run && d[k] == longest.0 && run_len(d, k) == longest.1 && forall|j: int|
                    0 <= j < k ==> #[trigger] run_len(d, j) < longest.1,
            forall|j: int| 0 <= j < i - current_run ==> #[trigger] run_len(d, j) <= longest.1,
            i - current_run > 0 ==> d[i - current_run] != d[i - current_run - 1],
        decreases d.len() - i,
    {
        let byte = data[i];
        let ghost m = i - current_run;
        if byte == current_byte {
            assert(run_len(d, i as int) == run_len(d, i - 1) + 1);
            current_run = current_run + 1;
        } else {
            assert(run_len(d, i as int) == 1);
            if current_run > longest.1 {
                proof {
                    assert(run_len(d, i - 1) == current_run);
                    assert forall|j: int| 0 <= j < i - 1 implies #[trigger] run_len(d, j) < current_run by {
                        if j >= m {
                            assert(run_len(d, j) == j - m + 1);
                        }
                    }
                }
                longest = (current_byte, current_run);
            } else {
                proof {
                    if m > 0 {
                        let k = choose|k: int|
                            0 <= k < m && d[k] == longest.0 && run_len(d, k) == longest.1 && forall|j: int|
                                0 <= j < k ==> #[trigger] run_len(d, j) < longest.1;
                        assert(0 <= k < i);
                    }
                    assert forall|j: int| 0 <= j < i implies #[trigger] run_len(d, j) <= longest.1 by {
                        if j >= m {
                            assert(run_len(d, j) == j - m + 1);
                        }
                    }
                }
            }
            current_byte = byte;
            current_run = 1;
        }
        i = i + 1;
    }
    let ghost m = i - current_run;
    if current_run > longest.1 {
        proof {
            assert(run_len(d, i - 1) == current_run);
            assert forall|j: int| 0 <= j < i - 1 implies #[trigger] run_len(d, j) < current_run by {
                if j >= m {
                    assert(run_len(d, j) == j - m + 1);
                }
            }
            assert forall|j: int| 0 <= j < d.len() implies #[trigger] run_len(d, j) <= current_run by {
                if j >= m {
                    assert(run_len(d, j) == j - m + 1);
                }
            }
        }
        longest = (current_byte, current_run);
    } else {
        proof {
            assert forall|j: int| 0 <= j < d.len() implies #[trigger] run_len(d, j) <= longest.1 by {
                if j >= m {
                    assert(run_len(d, j) == j - m + 1);
                }
            }
        }
    }
    longest
}

} // verus!
