//! Errors of the BACnet client, with the text each stands for.

use vstd::prelude::*;

use crate::encoding::EncodingError;
use crate::text::{chars_of, concat, dec_text, io_error_text, push_decimal, text_of};

verus! {

#[verifier::external_type_specification]
#[verifier::external_body]
pub struct ExIoError(std::io::Error);

/// Errors that can occur while using the BACnet client.
#[derive(Debug)]
pub enum ClientError {
    /// An underlying socket / I/O operation failed.
    Io(std::io::Error),
    /// A request could not be encoded, or a response could not be decoded.
    Encoding(EncodingError),
    /// A response was malformed or could not be interpreted.
    Decode(String),
    /// No response was received within the configured timeout.
    Timeout,
    /// A response was expected but the peer returned nothing usable.
    NoResponse,
    /// The remote device rejected the request (reject reason number).
    Rejected(u8),
    /// The remote device aborted the transaction (abort reason number).
    Abort(u8),
    /// The device returned a BACnet `Error` PDU, by error class and code.
    PropertyError { class: u32, code: u32 },
    /// A supplied address could not be parsed or resolved.
    AddressParse(String),
}

impl From<EncodingError> for ClientError {
    fn from(e: EncodingError) -> (r: Self) {
        ClientError::Encoding(e)
    }
}

impl vstd::std_specs::convert::FromSpecImpl<EncodingError> for ClientError {
    open spec fn obeys_from_spec() -> bool {
        true
    }

    open spec fn from_spec(e: EncodingError) -> ClientError {
        ClientError::Encoding(e)
    }
}

/// The name of a BACnet error class, where it is one of the eight.
pub open spec fn error_class_text(class: u32) -> Option<Seq<char>> {
    match class {
        0 => Some("device"@),
        1 => Some("object"@),
        2 => Some("property"@),
        3 => Some("resources"@),
        4 => Some("security"@),
        5 => Some("services"@),
        6 => Some("vt"@),
        7 => Some("communication"@),
        _ => None,
    }
}

/// The name of a common BACnet error code.
pub open spec fn error_code_text(code: u32) -> Option<Seq<char>> {
    match code {
        0 => Some("other"@),
        9 => Some("invalid-data-type"@),
        20 => Some("no-space-to-write-property"@),
        23 => Some("object-deletion-not-permitted"@),
        27 => Some("read-access-denied"@),
        29 => Some("service-request-denied"@),
        30 => Some("timeout"@),
        31 => Some("unknown-object"@),
        32 => Some("unknown-property"@),
        37 => Some("value-out-of-range"@),
        40 => Some("write-access-denied"@),
        44 => Some("not-cov-property"@),
        45 => Some("optional-functionality-not-supported"@),
        47 => Some("datatype-not-supported"@),
        50 => Some("property-is-not-an-array"@),
        70 => Some("unknown-device"@),
        _ => None,
    }
}

/// The text of an error class and code pair: both named where known, the
/// numbers always given, e.g. "write-access-denied (class property[2],
/// code 40)".
pub open spec fn bacnet_error_text(class: u32, code: u32) -> Seq<char> {
    let class_label = match error_class_text(class) {
        Some(name) => name + "["@ + dec_text(class as nat) + "]"@,
        None => dec_text(class as nat),
    };
    match error_code_text(code) {
        Some(name) => name + " (class "@ + class_label + ", code "@ + dec_text(code as nat) + ")"@,
        None => "BACnet error (class "@ + class_label + ", code "@ + dec_text(code as nat) + ")"@,
    }
}

/// The name of a BACnet error class.
fn error_class_name(class: u32) -> (r: Option<&'static str>)
    ensures
        match error_class_text(class) {
            Some(t) => r matches Some(s) && s@ == t,
            None => r is None,
        },
{
    match class {
        0 => Some("device"),
        1 => Some("object"),
        2 => Some("property"),
        3 => Some("resources"),
        4 => Some("security"),
        5 => Some("services"),
        6 => Some("vt"),
        7 => Some("communication"),
        _ => None,
    }
}

/// The name of a common BACnet error code.
fn error_code_name(code: u32) -> (r: Option<&'static str>)
    ensures
        match error_code_text(code) {
            Some(t) => r matches Some(s) && s@ == t,
            None => r is None,
        },
{
    match code {
        0 => Some("other"),
        9 => Some("invalid-data-type"),
        20 => Some("no-space-to-write-property"),
        23 => Some("object-deletion-not-permitted"),
        27 => Some("read-access-denied"),
        29 => Some("service-request-denied"),
        30 => Some("timeout"),
        31 => Some("unknown-object"),
        32 => Some("unknown-property"),
        37 => Some("value-out-of-range"),
        40 => Some("write-access-denied"),
        44 => Some("not-cov-property"),
        45 => Some("optional-functionality-not-supported"),
        47 => Some("datatype-not-supported"),
        50 => Some("property-is-not-an-array"),
        70 => Some("unknown-device"),
        _ => None,
    }
}

/// The decimal digits of `n`.
fn decimal(n: u32) -> (r: String)
    ensures
        r@ == dec_text(n as nat),
{
    let mut digits: Vec<char> = Vec::new();
    push_decimal(&mut digits, n as u64);
    text_of(&digits)
}

/// Renders a BACnet error class and code pair.
pub fn describe_bacnet_error(class: u32, code: u32) -> (r: String)
    ensures
        r@ == bacnet_error_text(class, code),
{
    let class_digits = decimal(class);
    let code_digits = decimal(code);
    let class_label = match error_class_name(class) {
        Some(name) => concat(concat(concat(chars_of(name), "["), class_digits.as_str()), "]"),
        None => class_digits,
    };
    match error_code_name(code) {
        Some(name) => concat(
            concat(concat(concat(concat(chars_of(name), " (class "), class_label.as_str()), ", code "), code_digits.as_str()),
            ")",
        ),
        None => concat(
            concat(concat(concat(chars_of("BACnet error (class "), class_label.as_str()), ", code "), code_digits.as_str()),
            ")",
        ),
    }
}

impl ClientError {
    /// The text of this error. An I/O error carries the system's own text
    /// after "I/O error: "; a reject or abort gives its reason number.
    pub fn to_string(&self) -> (r: String)
        ensures
            match self {
                ClientError::Io(_) => r@.len() >= 11 && r@.subrange(0, 11) == "I/O error: "@,
                ClientError::Encoding(e) => r@ == "encoding error: "@ + crate::encoding::encoding_error_text(*e),
                ClientError::Decode(msg) => r@ == "failed to decode response: "@ + msg@,
                ClientError::Timeout => r@ == "request timed out"@,
                ClientError::NoResponse => r@ == "no response from device"@,
                ClientError::Rejected(reason) => r@ == "request rejected: "@ + dec_text(*reason as nat),
                ClientError::Abort(reason) => r@ == "transaction aborted: "@ + dec_text(*reason as nat),
                ClientError::PropertyError { class, code } => r@ == bacnet_error_text(*class, *code),
                ClientError::AddressParse(msg) => r@ == "invalid address: "@ + msg@,
            },
    {
        match self {
            ClientError::Io(e) => {
                let t = io_error_text(e);
                let r = concat(chars_of("I/O error: "), t.as_str());
                proof {
                    reveal_strlit("I/O error: ");
                    assert(r@.subrange(0, 11) =~= "I/O error: "@);
                }
                r
            },
            ClientError::Encoding(e) => {
                let t = e.to_string();
                concat(chars_of("encoding error: "), t.as_str())
            },
            ClientError::Decode(msg) => concat(chars_of("failed to decode response: "), msg.as_str()),
            ClientError::Timeout => chars_of("request timed out"),
            ClientError::NoResponse => chars_of("no response from device"),
            ClientError::Rejected(reason) => {
                let d = decimal(*reason as u32);
                concat(chars_of("request rejected: "), d.as_str())
            },
            ClientError::Abort(reason) => {
                let d = decimal(*reason as u32);
                concat(chars_of("transaction aborted: "), d.as_str())
            },
            ClientError::PropertyError { class, code } => describe_bacnet_error(*class, *code),
            ClientError::AddressParse(msg) => concat(chars_of("invalid address: "), msg.as_str()),
        }
    }
}

} // verus!
