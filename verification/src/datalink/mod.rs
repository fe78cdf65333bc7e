//! Data link layers: MS/TP and Ethernet framing, the BACnet/IP virtual
//! link control header, and frame validation.

pub mod bip;
pub mod ethernet;
pub mod mstp;
pub mod validation;

use vstd::prelude::*;

use crate::text::{chars_of, concat, io_error_text};

verus! {

/// Errors of the data link layer.
#[derive(Debug)]
pub enum DataLinkError {
    /// I/O error
    IoError(std::io::Error),
    /// Invalid frame format
    InvalidFrame,
    /// CRC check failed
    CrcError,
    /// Address error
    AddressError(String),
    /// Unsupported data link type
    UnsupportedType,
}

/// Data link types.
#[derive(Debug, Clone, Copy, PartialEq, Eq, Structural)]
pub enum DataLinkType {
    BacnetIp,
    Ethernet,
    MsTP,
    PointToPoint,
    Arcnet,
}

impl DataLinkError {
    /// The text of this error; that of an I/O error carries the system's
    /// own text after "I/O error: ".
    pub fn to_string(&self) -> (r: String)
        ensures
            match self {
                DataLinkError::IoError(_) => r@.len() >= 11 && r@.subrange(0, 11) == "I/O error: "@,
                DataLinkError::InvalidFrame => r@ == "Invalid frame format"@,
                DataLinkError::CrcError => r@ == "CRC check failed"@,
                DataLinkError::AddressError(msg) => r@ == "Address error: "@ + msg@,
                DataLinkError::UnsupportedType => r@ == "Unsupported data link type"@,
            },
    {
        match self {
            DataLinkError::IoError(e) => {
                let t = io_error_text(e);
                let r = concat(chars_of("I/O error: "), t.as_str());
                proof {
                    reveal_strlit("I/O error: ");
                    assert(r@.subrange(0, 11) =~= "I/O error: "@);
                }
                r
            },
            DataLinkError::InvalidFrame => chars_of("Invalid frame format"),
            DataLinkError::CrcError => chars_of("CRC check failed"),
            DataLinkError::AddressError(msg) => concat(chars_of("Address error: "), msg.as_str()),
            DataLinkError::UnsupportedType => chars_of("Unsupported data link type"),
        }
    }
}

} // verus!
