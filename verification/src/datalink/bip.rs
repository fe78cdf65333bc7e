//! The BACnet Virtual Link Control header of BACnet/IP.

use vstd::prelude::*;

use super::DataLinkError;

verus! {

/// The standard BACnet/IP UDP port.
pub const BACNET_IP_PORT: u16 = 47808;

/// BVLC functions.
#[derive(Debug, Clone, Copy, PartialEq, Eq, Structural)]
pub enum BvlcFunction {
    OriginalUnicastNpdu,
    OriginalBroadcastNpdu,
    ForwardedNpdu,
    RegisterForeignDevice,
    ReadBroadcastDistributionTable,
    ReadBroadcastDistributionTableAck,
    ReadForeignDeviceTable,
    ReadForeignDeviceTableAck,
    DeleteForeignDeviceTableEntry,
    DistributeBroadcastToNetwork,
    ForwardedNpduFromDevice,
    SecureBvll,
}

/// The number of a BVLC function.
pub open spec fn bvlc_function_code(f: BvlcFunction) -> u8 {
    match f {
        BvlcFunction::OriginalUnicastNpdu => 0x0A,
        BvlcFunction::OriginalBroadcastNpdu => 0x0B,
        BvlcFunction::ForwardedNpdu => 0x04,
        BvlcFunction::RegisterForeignDevice => 0x05,
        BvlcFunction::ReadBroadcastDistributionTable => 0x02,
        BvlcFunction::ReadBroadcastDistributionTableAck => 0x03,
        BvlcFunction::ReadForeignDeviceTable => 0x06,
        BvlcFunction::ReadForeignDeviceTableAck => 0x07,
        BvlcFunction::DeleteForeignDeviceTableEntry => 0x08,
        BvlcFunction::DistributeBroadcastToNetwork => 0x09,
        BvlcFunction::ForwardedNpduFromDevice => 0x0C,
        BvlcFunction::SecureBvll => 0x0D,
    }
}

/// The BVLC function with a number, if any.
pub open spec fn bvlc_function_of(v: u8) -> Option<BvlcFunction> {
    if v == 0x0A { Some(BvlcFunction::OriginalUnicastNpdu) }
    else if v == 0x0B { Some(BvlcFunction::OriginalBroadcastNpdu) }
    else if v == 0x04 { Some(BvlcFunction::ForwardedNpdu) }
    else if v == 0x05 { Some(BvlcFunction::RegisterForeignDevice) }
    else if v == 0x02 { Some(BvlcFunction::ReadBroadcastDistributionTable) }
    else if v == 0x03 { Some(BvlcFunction::ReadBroadcastDistributionTableAck) }
    else if v == 0x06 { Some(BvlcFunction::ReadForeignDeviceTable) }
    else if v == 0x07 { Some(BvlcFunction::ReadForeignDeviceTableAck) }
    else if v == 0x08 { Some(BvlcFunction::DeleteForeignDeviceTableEntry) }
    else if v == 0x09 { Some(BvlcFunction::DistributeBroadcastToNetwork) }
    else if v == 0x0C { Some(BvlcFunction::ForwardedNpduFromDevice) }
    else if v == 0x0D { Some(BvlcFunction::SecureBvll) }
    else { None }
}

/// Each BVLC function has the number Annex J gives it: Read-BDT 0x02 and
/// its ack 0x03, Forwarded-NPDU 0x04, Register-Foreign-Device 0x05,
/// Read-FDT 0x06 and its ack 0x07, Delete-FDT-Entry 0x08,
/// Distribute-Broadcast-To-Network 0x09, Original-Unicast 0x0A,
/// Original-Broadcast 0x0B, Forwarded-NPDU-From-Device 0x0C and Secure-BVLL
/// 0x0D; a number reads back as exactly the function that has it.
pub proof fn lemma_bvlc_function_numbers(f: BvlcFunction, v: u8)
    ensures
        bvlc_function_code(BvlcFunction::ReadBroadcastDistributionTable) == 0x02,
        bvlc_function_code(BvlcFunction::ReadBroadcastDistributionTableAck) == 0x03,
        bvlc_function_code(BvlcFunction::ForwardedNpdu) == 0x04,
        bvlc_function_code(BvlcFunction::RegisterForeignDevice) == 0x05,
        bvlc_function_code(BvlcFunction::ReadForeignDeviceTable) == 0x06,
        bvlc_function_code(BvlcFunction::ReadForeignDeviceTableAck) == 0x07,
        bvlc_function_code(BvlcFunction::DeleteForeignDeviceTableEntry) == 0x08,
        bvlc_function_code(BvlcFunction::DistributeBroadcastToNetwork) == 0x09,
        bvlc_function_code(BvlcFunction::OriginalUnicastNpdu) == 0x0A,
        bvlc_function_code(BvlcFunction::OriginalBroadcastNpdu) == 0x0B,
        bvlc_function_code(BvlcFunction::ForwardedNpduFromDevice) == 0x0C,
        bvlc_function_code(BvlcFunction::SecureBvll) == 0x0D,
        bvlc_function_of(v) == Some(f) <==> bvlc_function_code(f) == v,
        bvlc_function_of(v) is None <==> (v < 0x02 || v > 0x0D),
{
}

impl BvlcFunction {
    /// The number of this function.
    pub fn code(self) -> (r: u8)
        ensures
            r == bvlc_function_code(self),
    {
        match self {
            BvlcFunction::OriginalUnicastNpdu => 0x0A,
            BvlcFunction::OriginalBroadcastNpdu => 0x0B,
            BvlcFunction::ForwardedNpdu => 0x04,
            BvlcFunction::RegisterForeignDevice => 0x05,
            BvlcFunction::ReadBroadcastDistributionTable => 0x02,
            BvlcFunction::ReadBroadcastDistributionTableAck => 0x03,
            BvlcFunction::ReadForeignDeviceTable => 0x06,
            BvlcFunction::ReadForeignDeviceTableAck => 0x07,
            BvlcFunction::DeleteForeignDeviceTableEntry => 0x08,
            BvlcFunction::DistributeBroadcastToNetwork => 0x09,
            BvlcFunction::ForwardedNpduFromDevice => 0x0C,
            BvlcFunction::SecureBvll => 0x0D,
        }
    }

    /// The function with number `v`, if any.
    pub fn from_code(v: u8) -> (r: Option<BvlcFunction>)
        ensures
            r == bvlc_function_of(v),
    {
        match v {
            0x0A => Some(BvlcFunction::OriginalUnicastNpdu),
            0x0B => Some(BvlcFunction::OriginalBroadcastNpdu),
            0x04 => Some(BvlcFunction::ForwardedNpdu),
            0x05 => Some(BvlcFunction::RegisterForeignDevice),
            0x02 => Some(BvlcFunction::ReadBroadcastDistributionTable),
            0x03 => Some(BvlcFunction::ReadBroadcastDistributionTableAck),
            0x06 => Some(BvlcFunction::ReadForeignDeviceTable),
            0x07 => Some(BvlcFunction::ReadForeignDeviceTableAck),
            0x08 => Some(BvlcFunction::DeleteForeignDeviceTableEntry),
            0x09 => Some(BvlcFunction::DistributeBroadcastToNetwork),
            0x0C => Some(BvlcFunction::ForwardedNpduFromDevice),
            0x0D => Some(BvlcFunction::SecureBvll),
            _ => None,
        }
    }
}

/// The BVLC header: type 0x81, function, total length.
#[derive(Debug, Clone, Copy, PartialEq, Eq, Structural)]
pub struct BvlcHeader {
    pub bvlc_type: u8,
    pub function: BvlcFunction,
    pub length: u16,
}

/// The octets of a BVLC header.
pub open spec fn bvlc_bytes(h: BvlcHeader) -> Seq<u8> {
    seq![h.bvlc_type, bvlc_function_code(h.function), (h.length / 256) as u8, (h.length % 256) as u8]
}

/// What decoding a BVLC header from `d` gives; `None` for `InvalidFrame`:
/// fewer than four octets, a type other than 0x81, or an unknown function.
pub open spec fn bvlc_decode(d: Seq<u8>) -> Option<BvlcHeader> {
    if d.len() < 4 || d[0] != 0x81 {
        None
    } else {
        match bvlc_function_of(d[1]) {
            None => None,
            Some(f) => Some(BvlcHeader { bvlc_type: 0x81, function: f, length: ((d[2] as int) * 256 + (d[3] as int)) as u16 }),
        }
    }
}

impl BvlcHeader {
    /// A BACnet/IP header (type 0x81).
    pub fn new(function: BvlcFunction, length: u16) -> (r: Self)
        ensures
            r == (BvlcHeader { bvlc_type: 0x81, function, length }),
    {
        BvlcHeader { bvlc_type: 0x81, function, length }
    }

    /// Encode the header.
    pub fn encode(&self) -> (r: Vec<u8>)
        ensures
            r@ == bvlc_bytes(*self),
    {
        let mut v: Vec<u8> = Vec::new();
        v.push(self.bvlc_type);
        v.push(self.function.code());
        v.push((self.length / 256) as u8);
        v.push((self.length % 256) as u8);
        assert(v@ =~= bvlc_bytes(*self));
        v
    }

    /// Decode a header.
    pub fn decode(data: &[u8]) -> (r: Result<Self, DataLinkError>)
        ensures
            match bvlc_decode(data@) {
                None => r matches Err(DataLinkError::InvalidFrame),
                Some(h) => r matches Ok(x) && x == h,
            },
    {
        if data.len() < 4 {
            return Err(DataLinkError::InvalidFrame);
        }
        let bvlc_type = data[0];
        if bvlc_type != 0x81 {
            return Err(DataLinkError::InvalidFrame);
        }
        let function = match BvlcFunction::from_code(data[1]) {
            Some(f) => f,
            None => {
                return Err(DataLinkError::InvalidFrame);
            },
        };
        let length: u16 = (data[2] as u16) * 256 + (data[3] as u16);
        Ok(BvlcHeader { bvlc_type, function, length })
    }
}

/// Decoding an encoded BACnet/IP header gives it back.
pub proof fn lemma_bvlc_round_trip(h: BvlcHeader)
    requires
        h.bvlc_type == 0x81,
    ensures
        bvlc_decode(bvlc_bytes(h)) == Some(h),
{
    assert(bvlc_function_of(bvlc_function_code(h.function)) == Some(h.function));
}


/// What one received BACnet/IP datagram carries for the layers above.
#[derive(Debug, Clone, PartialEq, Eq)]
pub enum BvlcMessage {
    /// An NPDU to hand up.
    Npdu(Vec<u8>),
    /// A foreign device asks to be registered for this many seconds.
    ForeignRegistration(u16),
    /// A BVLC message that carries nothing for the layers above.
    NoNpdu,
}

/// Read a received BACnet/IP datagram: check its header and its length, and
/// say what it carries.
pub fn process_bvlc_message(data: &[u8]) -> (r: Result<BvlcMessage, DataLinkError>)
    ensures
        match bvlc_decode(data@) {
            None => r matches Err(DataLinkError::InvalidFrame),
            Some(h) => if data@.len() != h.length {
                r matches Err(DataLinkError::InvalidFrame)
            } else {
                match h.function {
                    BvlcFunction::OriginalUnicastNpdu | BvlcFunction::OriginalBroadcastNpdu => if data@.len() > 4 {
                        (r matches Ok(BvlcMessage::Npdu(n)) && n@ == data@.subrange(4, data@.len() as int))
                    } else {
                        r matches Err(DataLinkError::InvalidFrame)
                    },
                    BvlcFunction::ForwardedNpdu => if data@.len() > 10 {
                        (r matches Ok(BvlcMessage::Npdu(n)) && n@ == data@.subrange(10, data@.len() as int))
                    } else {
                        r matches Err(DataLinkError::InvalidFrame)
                    },
                    BvlcFunction::RegisterForeignDevice => if data@.len() == 6 {
                        (r matches Ok(BvlcMessage::ForeignRegistration(t)) && t == (data@[4] as int) * 256 + (data@[5] as int))
                    } else {
                        r matches Ok(BvlcMessage::NoNpdu)
                    },
                    _ => r matches Ok(BvlcMessage::NoNpdu),
                }
            },
        },
{
    let header = match BvlcHeader::decode(data) {
        Ok(h) => h,
        Err(e) => {
            return Err(e);
        },
    };
    if data.len() != header.length as usize {
        return Err(DataLinkError::InvalidFrame);
    }
    match header.function {
        BvlcFunction::OriginalUnicastNpdu | BvlcFunction::OriginalBroadcastNpdu => {
            if data.len() > 4 {
                Ok(BvlcMessage::Npdu(slice_from(data, 4)))
            } else {
                Err(DataLinkError::InvalidFrame)
            }
        },
        BvlcFunction::ForwardedNpdu => {
            if data.len() > 10 {
                Ok(BvlcMessage::Npdu(slice_from(data, 10)))
            } else {
                Err(DataLinkError::InvalidFrame)
            }
        },
        BvlcFunction::RegisterForeignDevice => {
            if data.len() == 6 {
                let ttl: u16 = (data[4] as u16) * 256 + (data[5] as u16);
                Ok(BvlcMessage::ForeignRegistration(ttl))
            } else {
                Ok(BvlcMessage::NoNpdu)
            }
        },
        _ => Ok(BvlcMessage::NoNpdu),
    }
}

/// The octets of `data` from `start` on.
fn slice_from(data: &[u8], start: usize) -> (r: Vec<u8>)
    requires
        start <= data@.len(),
    ensures
        r@ == data@.subrange(start as int, data@.len() as int),
{
    let mut out: Vec<u8> = Vec::new();
    let mut i: usize = start;
    while i < data.len()
        invariant
            start <= i <= data@.len(),
            out@ == data@.subrange(start as int, i as int),
        decreases data@.len() - i,
    {
        out.push(data[i]);
        i = i + 1;
        assert(out@ =~= data@.subrange(start as int, i as int));
    }
    out
}

/// A BACnet/IP frame: a header with `function` and the total length, then
/// `payload`.
pub fn bvlc_frame(function: BvlcFunction, payload: &[u8]) -> (r: Vec<u8>)
    requires
        payload@.len() + 4 <= 0xFFFF,
    ensures
        r@ == bvlc_bytes(BvlcHeader { bvlc_type: 0x81, function, length: (payload@.len() + 4) as u16 }) + payload@,
{
    let header = BvlcHeader::new(function, (payload.len() + 4) as u16);
    let mut frame = header.encode();
    let mut i: usize = 0;
    while i < payload.len()
        invariant
            i <= payload@.len(),
            frame@ == bvlc_bytes(header) + payload@.subrange(0, i as int),
        decreases payload@.len() - i,
    {
        frame.push(payload[i]);
        i = i + 1;
        assert(frame@ =~= bvlc_bytes(header) + payload@.subrange(0, i as int));
    }
    assert(payload@.subrange(0, payload@.len() as int) =~= payload@);
    frame
}

/// A received frame built by `bvlc_frame` from an NPDU gives that NPDU back.
pub proof fn lemma_bvlc_frame_npdu_round_trip(function: BvlcFunction, npdu: Seq<u8>)
    requires
        function == BvlcFunction::OriginalUnicastNpdu || function == BvlcFunction::OriginalBroadcastNpdu,
        0 < npdu.len(),
        npdu.len() + 4 <= 0xFFFF,
    ensures
        ({
            let frame = bvlc_bytes(BvlcHeader { bvlc_type: 0x81, function, length: (npdu.len() + 4) as u16 }) + npdu;
            &&& bvlc_decode(frame) == Some(BvlcHeader { bvlc_type: 0x81, function, length: (npdu.len() + 4) as u16 })
            &&& frame.len() == npdu.len() + 4
            &&& frame.subrange(4, frame.len() as int) == npdu
        }),
{
    let h = BvlcHeader { bvlc_type: 0x81, function, length: (npdu.len() + 4) as u16 };
    let frame = bvlc_bytes(h) + npdu;
    lemma_bvlc_round_trip(h);
    assert(frame.subrange(0, 4) =~= bvlc_bytes(h));
    assert(frame.subrange(4, frame.len() as int) =~= npdu);
    assert(bvlc_decode(frame) == bvlc_decode(bvlc_bytes(h)));
}

} // verus!
