//! A BACnet protocol stack: tag-length-value encodings, network and
//! application layer PDUs, data link framing and standard object models,
//! each stated as a specification and proved against it.

pub mod app;
pub mod character_string;
pub mod client;
pub mod clock;
pub mod datalink;
pub mod encoding;
pub mod network;
pub mod object;
pub mod text;
pub mod util;

pub use datalink::DataLinkType;
pub use encoding::tag::ApplicationTagNumber as ApplicationTag;
pub use encoding::EncodingError;
pub use object::ObjectType;

use vstd::prelude::*;

verus! {

/// BACnet protocol version as defined in ASHRAE 135.
pub const BACNET_PROTOCOL_VERSION: u8 = 1;

/// Maximum Application Protocol Data Unit size in bytes.
pub const BACNET_MAX_APDU: usize = 1476;

/// Maximum Message Protocol Data Unit size in bytes (NPDU header plus APDU).
pub const BACNET_MAX_MPDU: usize = 1497;

} // verus!
