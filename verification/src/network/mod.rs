//! The BACnet network layer: NPDU headers, network layer messages,
//! routing tables and routers, path discovery, diagnostics and a simple
//! security filter.

pub mod diagnostics;
pub mod path;
pub mod routing;
pub mod tables;

use vstd::prelude::*;

use crate::text::{chars_of, concat, dec_text, push_decimal, text_of};

use crate::encoding::append_bytes;
use crate::encoding::tag::be16;

pub use diagnostics::{
    NetworkDiagnostics, NetworkLayerHandler, NetworkResponse, NetworkSecurityManager, NetworkStatistics, NetworkStatus,
    RouterHealth, SecurityStatistics,
};
pub use path::{NetworkLink, PathDiscovery};
pub use routing::{RouterInfo, RouterManager, RouterPerformanceMetrics, RoutingTable};
pub use tables::{bdt_entry, BdtEntry, BroadcastDistributionTable, FdtEntry, ForeignDeviceTable};


verus! {

/// Errors that can occur in network operations.
#[derive(Debug)]
pub enum NetworkError {
    /// Invalid NPDU format
    InvalidNpdu(String),
    /// Routing error
    RoutingError(String),
    /// Network unreachable
    NetworkUnreachable(u16),
    /// Hop count exceeded
    HopCountExceeded,
    /// Invalid network address
    InvalidAddress,
}

/// Network layer message types.
#[derive(Debug, Clone, Copy, PartialEq, Eq, Structural)]
pub enum NetworkMessageType {
    WhoIsRouterToNetwork,
    IAmRouterToNetwork,
    ICouldBeRouterToNetwork,
    RejectMessageToNetwork,
    RouterBusyToNetwork,
    RouterAvailableToNetwork,
    InitializeRoutingTable,
    InitializeRoutingTableAck,
    EstablishConnectionToNetwork,
    DisconnectConnectionToNetwork,
    WhatIsNetworkNumber,
    NetworkNumberIs,
}

/// The number of a network layer message type.
pub open spec fn message_type_code(t: NetworkMessageType) -> u8 {
    match t {
        NetworkMessageType::WhoIsRouterToNetwork => 0x00,
        NetworkMessageType::IAmRouterToNetwork => 0x01,
        NetworkMessageType::ICouldBeRouterToNetwork => 0x02,
        NetworkMessageType::RejectMessageToNetwork => 0x03,
        NetworkMessageType::RouterBusyToNetwork => 0x04,
        NetworkMessageType::RouterAvailableToNetwork => 0x05,
        NetworkMessageType::InitializeRoutingTable => 0x06,
        NetworkMessageType::InitializeRoutingTableAck => 0x07,
        NetworkMessageType::EstablishConnectionToNetwork => 0x08,
        NetworkMessageType::DisconnectConnectionToNetwork => 0x09,
        NetworkMessageType::WhatIsNetworkNumber => 0x12,
        NetworkMessageType::NetworkNumberIs => 0x13,
    }
}

/// The message type with number `code`, if there is one.
pub open spec fn message_type_of(code: u8) -> Option<NetworkMessageType> {
    if code == 0x00 { Some(NetworkMessageType::WhoIsRouterToNetwork) }
    else if code == 0x01 { Some(NetworkMessageType::IAmRouterToNetwork) }
    else if code == 0x02 { Some(NetworkMessageType::ICouldBeRouterToNetwork) }
    else if code == 0x03 { Some(NetworkMessageType::RejectMessageToNetwork) }
    else if code == 0x04 { Some(NetworkMessageType::RouterBusyToNetwork) }
    else if code == 0x05 { Some(NetworkMessageType::RouterAvailableToNetwork) }
    else if code == 0x06 { Some(NetworkMessageType::InitializeRoutingTable) }
    else if code == 0x07 { Some(NetworkMessageType::InitializeRoutingTableAck) }
    else if code == 0x08 { Some(NetworkMessageType::EstablishConnectionToNetwork) }
    else if code == 0x09 { Some(NetworkMessageType::DisconnectConnectionToNetwork) }
    else if code == 0x12 { Some(NetworkMessageType::WhatIsNetworkNumber) }
    else if code == 0x13 { Some(NetworkMessageType::NetworkNumberIs) }
    else { None }
}

/// The network layer message types carry the numbers of Clause 6.2.4:
/// Who-Is-Router-To-Network 0x00 through Disconnect-Connection-To-Network
/// 0x09 in their order, What-Is-Network-Number 0x12 and Network-Number-Is
/// 0x13; a number reads back as exactly the type that has it.
pub proof fn lemma_message_type_numbers(t: NetworkMessageType, v: u8)
    ensures
        message_type_code(NetworkMessageType::WhoIsRouterToNetwork) == 0x00,
        message_type_code(NetworkMessageType::IAmRouterToNetwork) == 0x01,
        message_type_code(NetworkMessageType::ICouldBeRouterToNetwork) == 0x02,
        message_type_code(NetworkMessageType::RejectMessageToNetwork) == 0x03,
        message_type_code(NetworkMessageType::RouterBusyToNetwork) == 0x04,
        message_type_code(NetworkMessageType::RouterAvailableToNetwork) == 0x05,
        message_type_code(NetworkMessageType::InitializeRoutingTable) == 0x06,
        message_type_code(NetworkMessageType::InitializeRoutingTableAck) == 0x07,
        message_type_code(NetworkMessageType::EstablishConnectionToNetwork) == 0x08,
        message_type_code(NetworkMessageType::DisconnectConnectionToNetwork) == 0x09,
        message_type_code(NetworkMessageType::WhatIsNetworkNumber) == 0x12,
        message_type_code(NetworkMessageType::NetworkNumberIs) == 0x13,
        message_type_of(v) == Some(t) <==> message_type_code(t) == v,
{
}

impl NetworkMessageType {
    /// The number of this message type.
    pub fn code(self) -> (r: u8)
        ensures
            r == message_type_code(self),
    {
        match self {
            NetworkMessageType::WhoIsRouterToNetwork => 0x00,
            NetworkMessageType::IAmRouterToNetwork => 0x01,
            NetworkMessageType::ICouldBeRouterToNetwork => 0x02,
            NetworkMessageType::RejectMessageToNetwork => 0x03,
            NetworkMessageType::RouterBusyToNetwork => 0x04,
            NetworkMessageType::RouterAvailableToNetwork => 0x05,
            NetworkMessageType::InitializeRoutingTable => 0x06,
            NetworkMessageType::InitializeRoutingTableAck => 0x07,
            NetworkMessageType::EstablishConnectionToNetwork => 0x08,
            NetworkMessageType::DisconnectConnectionToNetwork => 0x09,
            NetworkMessageType::WhatIsNetworkNumber => 0x12,
            NetworkMessageType::NetworkNumberIs => 0x13,
        }
    }

    /// The message type with number `code`, if there is one.
    pub fn from_code(code: u8) -> (r: Option<NetworkMessageType>)
        ensures
            r == message_type_of(code),
    {
        match code {
            0x00 => Some(NetworkMessageType::WhoIsRouterToNetwork),
            0x01 => Some(NetworkMessageType::IAmRouterToNetwork),
            0x02 => Some(NetworkMessageType::ICouldBeRouterToNetwork),
            0x03 => Some(NetworkMessageType::RejectMessageToNetwork),
            0x04 => Some(NetworkMessageType::RouterBusyToNetwork),
            0x05 => Some(NetworkMessageType::RouterAvailableToNetwork),
            0x06 => Some(NetworkMessageType::InitializeRoutingTable),
            0x07 => Some(NetworkMessageType::InitializeRoutingTableAck),
            0x08 => Some(NetworkMessageType::EstablishConnectionToNetwork),
            0x09 => Some(NetworkMessageType::DisconnectConnectionToNetwork),
            0x12 => Some(NetworkMessageType::WhatIsNetworkNumber),
            0x13 => Some(NetworkMessageType::NetworkNumberIs),
            _ => None,
        }
    }
}

/// Every message type is found again from its number.
pub proof fn lemma_message_type_round_trip(t: NetworkMessageType)
    ensures
        message_type_of(message_type_code(t)) == Some(t),
{
}

/// NPDU control flags.
#[derive(Debug, Clone, Copy, Default, PartialEq, Eq, Structural)]
pub struct NpduControl {
    /// Network layer message
    pub network_message: bool,
    /// Destination specifier present
    pub destination_present: bool,
    /// Source specifier present
    pub source_present: bool,
    /// Data expecting reply
    pub expecting_reply: bool,
    /// Network priority (0-3)
    pub priority: u8,
}

/// The control octet: bit 7 network message, bit 5 destination present,
/// bit 3 source present, bit 2 expecting reply, bits 1-0 the priority.
pub open spec fn control_byte(c: NpduControl) -> u8 {
    ((if c.network_message { 128int } else { 0 }) + (if c.destination_present { 32int } else { 0 })
        + (if c.source_present { 8int } else { 0 }) + (if c.expecting_reply { 4int } else { 0 })
        + (c.priority % 4)) as u8
}

/// The control flags a control octet carries.
pub open spec fn control_of(b: u8) -> NpduControl {
    NpduControl {
        network_message: (b / 128) % 2 == 1,
        destination_present: (b / 32) % 2 == 1,
        source_present: (b / 8) % 2 == 1,
        expecting_reply: (b / 4) % 2 == 1,
        priority: b % 4,
    }
}

/// The NPDU control octet holds its flags where Clause 6.2.2 puts them:
/// bit 7 a network layer message, bit 5 a destination present, bit 3 a
/// source present, bit 2 a reply expected, bits 1 and 0 the priority, and
/// bits 6 and 4 clear; reading the octet back gives the flags again.
pub proof fn lemma_control_octet_layout(c: NpduControl)
    ensures
        (control_byte(c) / 128) % 2 == 1 <==> c.network_message,
        (control_byte(c) / 64) % 2 == 0,
        (control_byte(c) / 32) % 2 == 1 <==> c.destination_present,
        (control_byte(c) / 16) % 2 == 0,
        (control_byte(c) / 8) % 2 == 1 <==> c.source_present,
        (control_byte(c) / 4) % 2 == 1 <==> c.expecting_reply,
        control_byte(c) % 4 == c.priority % 4,
        c.priority < 4 ==> control_of(control_byte(c)) == c,
{
}

/// Reading a control octet takes each flag from its bit: a destination
/// from bit 5, a source from bit 3, and so on; an octet with bits 6 and 4
/// clear is the control octet of what it reads as.
pub proof fn lemma_control_octet_read(b: u8)
    ensures
        (b / 64) % 2 == 0 && (b / 16) % 2 == 0 ==> control_byte(control_of(b)) == b,
        control_of(b).priority < 4,
{
}

impl NpduControl {
    /// The control octet of these flags (the priority taken modulo 4).
    pub fn to_byte(&self) -> (r: u8)
        ensures
            r == control_byte(*self),
    {
        let mut byte: u8 = 0;
        if self.network_message {
            byte = byte + 128;
        }
        if self.destination_present {
            byte = byte + 32;
        }
        if self.source_present {
            byte = byte + 8;
        }
        if self.expecting_reply {
            byte = byte + 4;
        }
        byte + self.priority % 4
    }

    /// The flags a control octet carries (bits 6 and 4 are ignored).
    pub fn from_byte(byte: u8) -> (r: Self)
        ensures
            r == control_of(byte),
    {
        NpduControl {
            network_message: (byte / 128) % 2 == 1,
            destination_present: (byte / 32) % 2 == 1,
            source_present: (byte / 8) % 2 == 1,
            expecting_reply: (byte / 4) % 2 == 1,
            priority: byte % 4,
        }
    }
}

/// Reading back the control octet of flags with a priority of at most 3
/// gives the same flags.
pub proof fn lemma_control_round_trip(c: NpduControl)
    requires
        c.priority <= 3,
    ensures
        control_of(control_byte(c)) == c,
{
}

/// Network address (network number + MAC address).
#[derive(Debug, Clone, PartialEq, Eq)]
pub struct NetworkAddress {
    /// Network number (0 = local network, 65535 = broadcast)
    pub network: u16,
    /// MAC address on that network
    pub address: Vec<u8>,
}

impl View for NetworkAddress {
    type V = (u16, Seq<u8>);

    open spec fn view(&self) -> (u16, Seq<u8>) {
        (self.network, self.address@)
    }
}

/// The view of an optional network address.
pub open spec fn opt_addr_view(a: Option<NetworkAddress>) -> Option<(u16, Seq<u8>)> {
    match a {
        Some(x) => Some(x@),
        None => None,
    }
}

/// Whether two byte vectors hold the same octets.
pub fn bytes_equal(a: &Vec<u8>, b: &Vec<u8>) -> (r: bool)
    ensures
        r <==> a@ == b@,
{
    if a.len() != b.len() {
        return false;
    }
    let mut i: usize = 0;
    while i < a.len()
        invariant
            a@.len() == b@.len(),
            i <= a@.len(),
            forall|j: int| 0 <= j < i ==> a@[j] == b@[j],
        decreases a@.len() - i,
    {
        if a[i] != b[i] {
            return false;
        }
        i = i + 1;
    }
    assert(a@ =~= b@);
    true
}

/// Whether `v` holds `x`.
pub fn contains_u16(v: &Vec<u16>, x: u16) -> (r: bool)
    ensures
        r <==> v@.contains(x),
{
    let mut i: usize = 0;
    while i < v.len()
        invariant
            i <= v@.len(),
            forall|j: int| 0 <= j < i ==> v@[j] != x,
        decreases v@.len() - i,
    {
        if v[i] == x {
            return true;
        }
        i = i + 1;
    }
    false
}

/// A copy of a byte vector.
pub fn copy_bytes(v: &Vec<u8>) -> (r: Vec<u8>)
    ensures
        r@ == v@,
{
    let r = v.clone();
    assert(r@ =~= v@);
    r
}

/// A copy of a vector of network numbers.
pub fn copy_u16s(v: &Vec<u16>) -> (r: Vec<u16>)
    ensures
        r@ == v@,
{
    let r = v.clone();
    assert(r@ =~= v@);
    r
}

impl NetworkAddress {
    /// Create a new network address.
    pub fn new(network: u16, address: Vec<u8>) -> (r: Self)
        ensures
            r.network == network,
            r.address@ == address@,
    {
        NetworkAddress { network, address }
    }

    /// Check if this is a broadcast address (network 65535).
    pub fn is_broadcast(&self) -> (r: bool)
        ensures
            r <==> self.network == 0xFFFF,
    {
        self.network == 0xFFFF
    }

    /// Check if this is a local network address (network 0).
    pub fn is_local(&self) -> (r: bool)
        ensures
            r <==> self.network == 0,
    {
        self.network == 0
    }

    /// Whether two addresses are the same network and MAC address.
    pub fn same_as(&self, other: &NetworkAddress) -> (r: bool)
        ensures
            r <==> self@ == other@,
    {
        self.network == other.network && bytes_equal(&self.address, &other.address)
    }

    /// A copy of this address.
    pub fn duplicate(&self) -> (r: Self)
        ensures
            r@ == self@,
    {
        NetworkAddress { network: self.network, address: copy_bytes(&self.address) }
    }
}

/// Network Protocol Data Unit (NPDU) header.
#[derive(Debug, Clone)]
pub struct Npdu {
    /// Protocol version (always 1)
    pub version: u8,
    /// Control information
    pub control: NpduControl,
    /// Destination network address
    pub destination: Option<NetworkAddress>,
    /// Source network address
    pub source: Option<NetworkAddress>,
    /// Hop count (only present if destination is present)
    pub hop_count: Option<u8>,
}

/// The abstract content of an NPDU header.
pub type NpduView = (u8, NpduControl, Option<(u16, Seq<u8>)>, Option<(u16, Seq<u8>)>, Option<u8>);

impl View for Npdu {
    type V = NpduView;

    open spec fn view(&self) -> NpduView {
        (self.version, self.control, opt_addr_view(self.destination), opt_addr_view(self.source), self.hop_count)
    }
}

/// The octets of an address in an NPDU: network number (big-endian), MAC
/// length, MAC octets.
pub open spec fn address_bytes(a: (u16, Seq<u8>)) -> Seq<u8> {
    seq![(a.0 / 256) as u8, (a.0 % 256) as u8, a.1.len() as u8] + a.1
}

/// The octets of an optional address.
pub open spec fn opt_address_bytes(a: Option<(u16, Seq<u8>)>) -> Seq<u8> {
    match a {
        Some(x) => address_bytes(x),
        None => seq![],
    }
}

/// The octets of an NPDU header: version, control octet, destination,
/// source, and (with a destination) the hop count, 255 if none is set.
pub open spec fn npdu_bytes(n: NpduView) -> Seq<u8> {
    seq![n.0, control_byte(n.1)] + opt_address_bytes(n.2) + opt_address_bytes(n.3) + (if n.2 is Some {
        seq![match n.4 { Some(h) => h, None => 255u8 }]
    } else {
        seq![]
    })
}

/// Reading an address at `pos`: the address and where it ends, or `None`
/// where the octets run out.
pub open spec fn address_decode(d: Seq<u8>, pos: int) -> Option<((u16, Seq<u8>), int)> {
    if pos + 3 > d.len() {
        None
    } else {
        let len = d[pos + 2] as int;
        if pos + 3 + len > d.len() {
            None
        } else {
            Some(((be16(d[pos], d[pos + 1]) as u16, d.subrange(pos + 3, pos + 3 + len)), pos + 3 + len))
        }
    }
}

/// Reading an optional address at `pos`: absent ones take no octets.
pub open spec fn opt_address_decode(d: Seq<u8>, pos: int, present: bool) -> Option<(Option<(u16, Seq<u8>)>, int)> {
    if present {
        match address_decode(d, pos) {
            Some((a, p)) => Some((Some(a), p)),
            None => None,
        }
    } else {
        Some((None, pos))
    }
}

/// What decoding an NPDU header from the start of `d` gives, `None` for an
/// `InvalidNpdu` error: fewer than two octets, a version other than 1, or
/// an address or hop count running past the end.
pub open spec fn npdu_decode(d: Seq<u8>) -> Option<(NpduView, usize)> {
    if d.len() < 2 || d[0] != 1 {
        None
    } else {
        let control = control_of(d[1]);
        match opt_address_decode(d, 2, control.destination_present) {
            None => None,
            Some((dest, p1)) => match opt_address_decode(d, p1, control.source_present) {
                None => None,
                Some((src, p2)) => if dest is Some {
                    if p2 >= d.len() {
                        None
                    } else {
                        Some(((1u8, control, dest, src, Some(d[p2])), (p2 + 1) as usize))
                    }
                } else {
                    Some(((1u8, control, dest, src, None::<u8>), p2 as usize))
                },
            },
        }
    }
}

/// A decoded NPDU header never runs past the end of its input.
pub proof fn lemma_npdu_decode_within(d: Seq<u8>)
    ensures
        npdu_decode(d) matches Some((n, k)) ==> 2 <= k <= d.len(),
{
}

/// Writes an address into an NPDU buffer.
fn encode_address(buffer: &mut Vec<u8>, a: &NetworkAddress)
    ensures
        final(buffer)@ == old(buffer)@ + address_bytes(a@),
{
    buffer.push((a.network / 256) as u8);
    buffer.push((a.network % 256) as u8);
    buffer.push(a.address.len() as u8);
    append_bytes(buffer, a.address.as_slice());
    assert(final(buffer)@ =~= old(buffer)@ + address_bytes(a@));
}

/// Reads an address at `pos`.
fn decode_address(data: &[u8], pos: usize) -> (r: Option<(NetworkAddress, usize)>)
    requires
        pos <= data@.len(),
    ensures
        match address_decode(data@, pos as int) {
            None => r is None,
            Some((a, p)) => r matches Some((x, q)) && x@ == a && q == p,
        },
{
    if data.len() - pos < 3 {
        return None;
    }
    let network: u16 = (data[pos] as u16) * 256 + (data[pos + 1] as u16);
    let addr_len = data[pos + 2] as usize;
    if data.len() - (pos + 3) < addr_len {
        return None;
    }
    let address = vstd::slice::slice_to_vec(vstd::slice::slice_subrange(data, pos + 3, pos + 3 + addr_len));
    Some((NetworkAddress { network, address }, pos + 3 + addr_len))
}

impl Npdu {
    /// An NPDU header with version 1, no flags and no addresses.
    pub fn new() -> (r: Self)
        ensures
            r@ == (1u8, NpduControl { network_message: false, destination_present: false, source_present: false, expecting_reply: false, priority: 0 }, None::<(u16, Seq<u8>)>, None::<(u16, Seq<u8>)>, None::<u8>),
    {
        Npdu {
            version: 1,
            control: NpduControl { network_message: false, destination_present: false, source_present: false, expecting_reply: false, priority: 0 },
            destination: None,
            source: None,
            hop_count: None,
        }
    }

    /// An NPDU header for a global broadcast: destination network 65535
    /// with an empty MAC address, hop count 255.
    pub fn global_broadcast() -> (r: Self)
        ensures
            r@ == (1u8, NpduControl { network_message: false, destination_present: true, source_present: false, expecting_reply: false, priority: 0 }, Some((0xFFFFu16, Seq::<u8>::empty())), None::<(u16, Seq<u8>)>, Some(255u8)),
    {
        let r = Npdu {
            version: 1,
            control: NpduControl { network_message: false, destination_present: true, source_present: false, expecting_reply: false, priority: 0 },
            destination: Some(NetworkAddress { network: 0xFFFF, address: Vec::new() }),
            source: None,
            hop_count: Some(255),
        };
        assert(r@ =~= (1u8, NpduControl { network_message: false, destination_present: true, source_present: false, expecting_reply: false, priority: 0 }, Some((0xFFFFu16, Seq::<u8>::empty())), None::<(u16, Seq<u8>)>, Some(255u8)));
        r
    }

    /// Check if this is a network layer message.
    pub fn is_network_message(&self) -> (r: bool)
        ensures
            r == self.control.network_message,
    {
        self.control.network_message
    }

    /// Encode the NPDU header. Addresses are written as present or absent
    /// by the `destination` and `source` fields themselves.
    pub fn encode(&self) -> (r: Vec<u8>)
        ensures
            r@ == npdu_bytes(self@),
    {
        let mut buffer: Vec<u8> = Vec::new();
        buffer.push(self.version);
        buffer.push(self.control.to_byte());
        if let Some(dest) = &self.destination {
            encode_address(&mut buffer, dest);
        }
        if let Some(src) = &self.source {
            encode_address(&mut buffer, src);
        }
        if self.destination.is_some() {
            let hop: u8 = match self.hop_count {
                Some(h) => h,
                None => 255,
            };
            buffer.push(hop);
        }
        assert(buffer@ =~= npdu_bytes(self@));
        buffer
    }

    /// Decode an NPDU header, with the number of octets it occupies.
    pub fn decode(data: &[u8]) -> (r: Result<(Self, usize), NetworkError>)
        ensures
            match npdu_decode(data@) {
                None => r matches Err(NetworkError::InvalidNpdu(_)),
                Some((n, k)) => r matches Ok((x, q)) && x@ == n && q == k,
            },
    {
        if data.len() < 2 {
            return Err(NetworkError::InvalidNpdu("NPDU too short".to_string()));
        }
        let version = data[0];
        if version != 1 {
            return Err(NetworkError::InvalidNpdu("Invalid NPDU version".to_string()));
        }
        let control = NpduControl::from_byte(data[1]);
        let mut pos: usize = 2;
        let destination = if control.destination_present {
            match decode_address(data, pos) {
                Some((a, p)) => {
                    pos = p;
                    Some(a)
                },
                None => {
                    return Err(NetworkError::InvalidNpdu("Invalid destination address".to_string()));
                },
            }
        } else {
            None
        };
        let source = if control.source_present {
            match decode_address(data, pos) {
                Some((a, p)) => {
                    pos = p;
                    Some(a)
                },
                None => {
                    return Err(NetworkError::InvalidNpdu("Invalid source address".to_string()));
                },
            }
        } else {
            None
        };
        let hop_count = if destination.is_some() {
            if pos >= data.len() {
                return Err(NetworkError::InvalidNpdu("Missing hop count".to_string()));
            }
            let hc = data[pos];
            pos = pos + 1;
            Some(hc)
        } else {
            None
        };
        Ok((Npdu { version, control, destination, source, hop_count }, pos))
    }
}

/// Whether an NPDU header's control flags agree with the addresses it
/// holds, and everything fits its field on the wire: the condition for
/// decoding to give the header back.
pub open spec fn npdu_well_formed(n: NpduView) -> bool {
    &&& n.0 == 1
    &&& n.1.priority <= 3
    &&& n.1.destination_present == n.2 is Some
    &&& n.1.source_present == n.3 is Some
    &&& (n.2 matches Some(a) ==> a.1.len() <= 255)
    &&& (n.3 matches Some(a) ==> a.1.len() <= 255)
    &&& (n.2 is Some ==> n.4 is Some)
    &&& (n.2 is None ==> n.4 is None)
}

/// Decoding an encoded address gives it back.
proof fn lemma_address_round_trip(a: (u16, Seq<u8>), pre: Seq<u8>, rest: Seq<u8>)
    requires
        a.1.len() <= 255,
    ensures
        address_decode(pre + address_bytes(a) + rest, pre.len() as int)
            == Some((a, (pre.len() + address_bytes(a).len()) as int)),
{
    let d = pre + address_bytes(a) + rest;
    let p = pre.len() as int;
    assert(d[p] == (a.0 / 256) as u8 && d[p + 1] == (a.0 % 256) as u8 && d[p + 2] == a.1.len() as u8);
    assert(be16(d[p], d[p + 1]) == a.0);
    assert(d.subrange(p + 3, p + 3 + a.1.len()) =~= a.1);
}

/// Decoding an encoded, well-formed NPDU header gives it back.
pub proof fn lemma_npdu_round_trip(n: NpduView, rest: Seq<u8>)
    requires
        npdu_well_formed(n),
    ensures
        npdu_decode(npdu_bytes(n) + rest) == Some((n, npdu_bytes(n).len() as usize)),
{
    lemma_control_round_trip(n.1);
    let d = npdu_bytes(n) + rest;
    let head = seq![n.0, control_byte(n.1)];
    let db = opt_address_bytes(n.2);
    let sb = opt_address_bytes(n.3);
    let tail = if n.2 is Some { seq![match n.4 { Some(h) => h, None => 255u8 }] } else { seq![] };
    assert(d == head + db + sb + tail + rest);
    if let Some(a) = n.2 {
        assert(d == head + address_bytes(a) + (sb + tail + rest));
        lemma_address_round_trip(a, head, sb + tail + rest);
    }
    let p1 = (head.len() + db.len()) as int;
    if let Some(b) = n.3 {
        assert(d == (head + db) + address_bytes(b) + (tail + rest));
        lemma_address_round_trip(b, head + db, tail + rest);
    }
    let p2 = p1 + sb.len();
    if n.2 is Some {
        assert(d[p2] == tail[0]);
    }
}

/// Network layer message: its type and the octets after it.
pub struct NetworkLayerMessage {
    /// Message type
    pub message_type: NetworkMessageType,
    /// Message data
    pub data: Vec<u8>,
}

impl NetworkLayerMessage {
    /// Create a new network layer message.
    pub fn new(message_type: NetworkMessageType, data: Vec<u8>) -> (r: Self)
        ensures
            r.message_type == message_type,
            r.data@ == data@,
    {
        NetworkLayerMessage { message_type, data }
    }

    /// Encode: the message type octet, then the data.
    pub fn encode(&self) -> (r: Vec<u8>)
        ensures
            r@ == seq![message_type_code(self.message_type)] + self.data@,
    {
        let mut buffer: Vec<u8> = Vec::new();
        buffer.push(self.message_type.code());
        append_bytes(&mut buffer, self.data.as_slice());
        buffer
    }

    /// Decode: the first octet names the type, the rest is the data. Empty
    /// input or an unknown type number is `InvalidNpdu`.
    pub fn decode(data: &[u8]) -> (r: Result<Self, NetworkError>)
        ensures
            data@.len() == 0 ==> r matches Err(NetworkError::InvalidNpdu(_)),
            data@.len() > 0 ==> match message_type_of(data@[0]) {
                None => r matches Err(NetworkError::InvalidNpdu(_)),
                Some(t) => r matches Ok(m) && m.message_type == t && m.data@ == data@.subrange(1, data@.len() as int),
            },
    {
        if data.len() == 0 {
            return Err(NetworkError::InvalidNpdu("Empty network message".to_string()));
        }
        let message_type = match NetworkMessageType::from_code(data[0]) {
            Some(t) => t,
            None => {
                return Err(NetworkError::InvalidNpdu("Unknown network message type".to_string()));
            },
        };
        let message_data = vstd::slice::slice_to_vec(vstd::slice::slice_subrange(data, 1, data.len()));
        Ok(NetworkLayerMessage { message_type, data: message_data })
    }
}

/// Decoding an encoded network layer message gives back its type and data.
pub proof fn lemma_network_message_round_trip(t: NetworkMessageType, data: Seq<u8>)
    ensures
        message_type_of((seq![message_type_code(t)] + data)[0]) == Some(t),
        (seq![message_type_code(t)] + data).subrange(1, data.len() + 1int) == data,
{
    assert((seq![message_type_code(t)] + data).subrange(1, data.len() + 1int) =~= data);
}

/// Network priority levels.
#[derive(Debug, Clone, Copy, PartialEq, Eq, Structural)]
pub enum NetworkPriority {
    /// Life Safety messages (highest priority)
    LifeSafety,
    /// Critical Equipment messages
    CriticalEquipment,
    /// Urgent messages
    Urgent,
    /// Normal messages (lowest priority)
    Normal,
}

/// The priority bits of a priority level.
pub open spec fn priority_bits(p: NetworkPriority) -> u8 {
    match p {
        NetworkPriority::LifeSafety => 3,
        NetworkPriority::CriticalEquipment => 2,
        NetworkPriority::Urgent => 1,
        NetworkPriority::Normal => 0,
    }
}

impl NetworkPriority {
    /// Convert to NPDU priority bits.
    pub fn to_bits(self) -> (r: u8)
        ensures
            r == priority_bits(self),
    {
        match self {
            NetworkPriority::LifeSafety => 3,
            NetworkPriority::CriticalEquipment => 2,
            NetworkPriority::Urgent => 1,
            NetworkPriority::Normal => 0,
        }
    }

    /// Create from NPDU priority bits (only the low two bits count).
    pub fn from_bits(bits: u8) -> (r: Self)
        ensures
            priority_bits(r) == bits % 4,
    {
        let b = bits % 4;
        if b == 3 {
            NetworkPriority::LifeSafety
        } else if b == 2 {
            NetworkPriority::CriticalEquipment
        } else if b == 1 {
            NetworkPriority::Urgent
        } else {
            NetworkPriority::Normal
        }
    }
}

/// A priority level is found again from its bits.
pub proof fn lemma_priority_round_trip(p: NetworkPriority, q: NetworkPriority)
    requires
        priority_bits(q) == priority_bits(p) % 4,
    ensures
        q == p,
{
}

/// The text of a network layer error.
pub open spec fn network_error_text(e: NetworkError) -> Seq<char> {
    match e {
        NetworkError::InvalidNpdu(msg) => "Invalid NPDU: "@ + msg@,
        NetworkError::RoutingError(msg) => "Routing error: "@ + msg@,
        NetworkError::NetworkUnreachable(net) => "Network "@ + dec_text(net as nat) + " unreachable"@,
        NetworkError::HopCountExceeded => "Hop count exceeded"@,
        NetworkError::InvalidAddress => "Invalid network address"@,
    }
}

impl NetworkError {
    /// The text of this error.
    pub fn to_string(&self) -> (r: String)
        ensures
            r@ == network_error_text(*self),
    {
        match self {
            NetworkError::InvalidNpdu(msg) => concat(chars_of("Invalid NPDU: "), msg.as_str()),
            NetworkError::RoutingError(msg) => concat(chars_of("Routing error: "), msg.as_str()),
            NetworkError::NetworkUnreachable(net) => {
                let mut digits: Vec<char> = Vec::new();
                push_decimal(&mut digits, *net as u64);
                let d = text_of(&digits);
                concat(concat(chars_of("Network "), d.as_str()), " unreachable")
            },
            NetworkError::HopCountExceeded => chars_of("Hop count exceeded"),
            NetworkError::InvalidAddress => chars_of("Invalid network address"),
        }
    }
}

} // verus!
