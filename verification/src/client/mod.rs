//! The parts of the BACnet client that decide rather than send: its
//! configuration, invoke IDs, errors, object identifier packing and the
//! display names of object types.

use vstd::prelude::*;

use crate::app::{apdu_bytes, apdu_decode, Apdu, ApduView, MaxApduSize, MaxSegments};
use crate::encoding::object_identifier::object_identifier_decode;
use crate::encoding::{decode_object_identifier, lemma_tag_decode_within};
use crate::network::{lemma_npdu_decode_within, npdu_bytes, npdu_decode, Npdu, NpduControl, NpduView};
use crate::object::{ObjectIdentifier, ObjectType};

pub mod config;
pub mod error;
pub mod rpm;
pub mod transaction;

pub use config::{ClientBuilder, ClientConfig, DEFAULT_HOST, DEFAULT_TIMEOUT_SECS};
pub use error::ClientError;
pub use rpm::{rpm_batches, rpm_properties, PropertyIdentifier, RPM_BATCH_SIZE};
pub use transaction::InvokeIdAllocator;

verus! {

/// Packs an object type and instance: the type shifted to the top ten
/// bits, the instance masked to the low 22.
pub fn encode_object_id(object_type: u16, instance: u32) -> (r: u32)
    ensures
        r == ((object_type as u32) << 22u32) | (instance & 0x3FFFFF),
        r == (object_type % 1024) * 4194304 + instance % 4194304,
{
    let r = ((object_type as u32) << 22u32) | (instance & 0x3FFFFF);
    let t = object_type as u32;
    assert(((t << 22u32) | (instance & 0x3FFFFF)) == (t % 1024) * 4194304 + instance % 4194304) by (bit_vector)
        requires
            t < 65536,
    ;
    r
}

/// Unpacks an object identifier into its type (top ten bits) and instance
/// (low 22 bits).
pub fn decode_object_id(encoded: u32) -> (r: (u16, u32))
    ensures
        r.0 == encoded / 4194304,
        r.1 == encoded % 4194304,
{
    let object_type = ((encoded >> 22u32) & 0x3FF) as u16;
    let instance = encoded & 0x3FFFFF;
    assert((encoded >> 22u32) & 0x3FF == encoded / 4194304 && encoded & 0x3FFFFF == encoded % 4194304) by (bit_vector);
    (object_type, instance)
}

/// Unpacking a packed type and instance gives them back, where they fit
/// their fields.
pub proof fn lemma_client_object_id_round_trip(object_type: u16, instance: u32)
    requires
        object_type < 1024,
        instance < 4194304,
    ensures
        ((object_type % 1024) * 4194304 + instance % 4194304) as u32 / 4194304 == object_type,
        ((object_type % 1024) * 4194304 + instance % 4194304) as u32 % 4194304 == instance,
{
}

/// The display name of an object type.
pub open spec fn object_type_display(t: ObjectType) -> Seq<char> {
    match t {
        ObjectType::Device => "Device"@,
        ObjectType::AnalogInput => "Analog Input"@,
        ObjectType::AnalogOutput => "Analog Output"@,
        ObjectType::AnalogValue => "Analog Value"@,
        ObjectType::BinaryInput => "Binary Input"@,
        ObjectType::BinaryOutput => "Binary Output"@,
        ObjectType::BinaryValue => "Binary Value"@,
        ObjectType::MultiStateInput => "Multi-State Input"@,
        ObjectType::MultiStateOutput => "Multi-State Output"@,
        ObjectType::MultiStateValue => "Multi-State Value"@,
        ObjectType::Calendar => "Calendar"@,
        ObjectType::Command => "Command"@,
        ObjectType::EventEnrollment => "Event Enrollment"@,
        ObjectType::File => "File"@,
        ObjectType::Group => "Group"@,
        ObjectType::Loop => "Loop"@,
        ObjectType::NotificationClass => "Notification Class"@,
        ObjectType::Program => "Program"@,
        ObjectType::Schedule => "Schedule"@,
        ObjectType::Averaging => "Averaging"@,
        ObjectType::TrendLog => "Trend Log"@,
        ObjectType::LifeSafetyPoint => "Life Safety Point"@,
        ObjectType::LifeSafetyZone => "Life Safety Zone"@,
        ObjectType::Accumulator => "Accumulator"@,
        ObjectType::PulseConverter => "Pulse Converter"@,
        ObjectType::EventLog => "Event Log"@,
        ObjectType::GlobalGroup => "Global Group"@,
        ObjectType::TrendLogMultiple => "Trend Log Multiple"@,
        ObjectType::LoadControl => "Load Control"@,
        ObjectType::StructuredView => "Structured View"@,
        ObjectType::AccessDoor => "Access Door"@,
        ObjectType::Proprietary(_) => "Proprietary"@,
    }
}

/// The display name of an object type.
pub fn get_object_type_name(object_type: ObjectType) -> (r: &'static str)
    ensures
        r@ == object_type_display(object_type),
{
    match object_type {
        ObjectType::Device => "Device",
        ObjectType::AnalogInput => "Analog Input",
        ObjectType::AnalogOutput => "Analog Output",
        ObjectType::AnalogValue => "Analog Value",
        ObjectType::BinaryInput => "Binary Input",
        ObjectType::BinaryOutput => "Binary Output",
        ObjectType::BinaryValue => "Binary Value",
        ObjectType::MultiStateInput => "Multi-State Input",
        ObjectType::MultiStateOutput => "Multi-State Output",
        ObjectType::MultiStateValue => "Multi-State Value",
        ObjectType::Calendar => "Calendar",
        ObjectType::Command => "Command",
        ObjectType::EventEnrollment => "Event Enrollment",
        ObjectType::File => "File",
        ObjectType::Group => "Group",
        ObjectType::Loop => "Loop",
        ObjectType::NotificationClass => "Notification Class",
        ObjectType::Program => "Program",
        ObjectType::Schedule => "Schedule",
        ObjectType::Averaging => "Averaging",
        ObjectType::TrendLog => "Trend Log",
        ObjectType::LifeSafetyPoint => "Life Safety Point",
        ObjectType::LifeSafetyZone => "Life Safety Zone",
        ObjectType::Accumulator => "Accumulator",
        ObjectType::PulseConverter => "Pulse Converter",
        ObjectType::EventLog => "Event Log",
        ObjectType::GlobalGroup => "Global Group",
        ObjectType::TrendLogMultiple => "Trend Log Multiple",
        ObjectType::LoadControl => "Load Control",
        ObjectType::StructuredView => "Structured View",
        ObjectType::AccessDoor => "Access Door",
        ObjectType::Proprietary(_) => "Proprietary",
    }
}


/// Whether `d` is a whole BACnet/IP frame: type 0x81 and a length field
/// equal to its length.
pub open spec fn whole_bvlc_frame(d: Seq<u8>) -> bool {
    d.len() >= 4 && d[0] == 0x81 && d.len() == (d[2] as int) * 256 + (d[3] as int)
}

/// What an APDU says to a client waiting on `invoke_id`: the service data
/// of a matching ComplexAck, nothing for a matching SimpleAck, the error of
/// a matching Error, Reject or Abort; `Ok(None)` for anything else.
pub open spec fn response_to(a: ApduView, invoke_id: u8) -> Result<Option<Seq<u8>>, ClientError> {
    match a {
        ApduView::ComplexAck { invoke_id: id, service_data, .. } => if id == invoke_id {
            Ok(Some(service_data))
        } else {
            Ok(None)
        },
        ApduView::SimpleAck { invoke_id: id, .. } => if id == invoke_id {
            Ok(Some(Seq::empty()))
        } else {
            Ok(None)
        },
        ApduView::Error { invoke_id: id, error_class, error_code, .. } => if id == invoke_id {
            Err(ClientError::PropertyError { class: error_class as u32, code: error_code as u32 })
        } else {
            Ok(None)
        },
        ApduView::Reject { invoke_id: id, reject_reason } => if id == invoke_id {
            Err(ClientError::Rejected(reject_reason))
        } else {
            Ok(None)
        },
        ApduView::Abort { invoke_id: id, abort_reason, .. } => if id == invoke_id {
            Err(ClientError::Abort(abort_reason))
        } else {
            Ok(None)
        },
        _ => Ok(None),
    }
}

/// What a received frame says to a client waiting on `invoke_id`: frames
/// that are not whole BACnet/IP frames, or whose NPDU or APDU does not
/// decode, are `Ok(None)` (other traffic); else as `response_to`.
pub open spec fn confirmed_response(d: Seq<u8>, invoke_id: u8) -> Result<Option<Seq<u8>>, ClientError> {
    if !whole_bvlc_frame(d) {
        Ok(None)
    } else {
        match npdu_decode(d.subrange(4, d.len() as int)) {
            None => Ok(None),
            Some((n, k)) => match apdu_decode(d.subrange(4 + k, d.len() as int)) {
                Err(_) => Ok(None),
                Ok(a) => response_to(a, invoke_id),
            },
        }
    }
}

/// Interpret a received frame as the response to `expected_invoke_id`:
/// `Ok(Some(data))` for the matching ComplexAck or SimpleAck, the error of
/// a matching Error, Reject or Abort, and `Ok(None)` for other traffic.
pub fn interpret_confirmed_response(data: &[u8], expected_invoke_id: u8) -> (r: Result<Option<Vec<u8>>, ClientError>)
    ensures
        match confirmed_response(data@, expected_invoke_id) {
            Ok(None) => r matches Ok(None),
            Ok(Some(s)) => r matches Ok(Some(v)) && v@ == s,
            Err(e) => r matches Err(x) && x == e,
        },
{
    if data.len() < 4 || data[0] != 0x81 {
        return Ok(None);
    }
    let bvlc_length: usize = (data[2] as usize) * 256 + (data[3] as usize);
    if data.len() != bvlc_length {
        return Ok(None);
    }
    let npdu_part = tail_of(data, 4);
    let npdu_len = match Npdu::decode(npdu_part.as_slice()) {
        Ok((_npdu, k)) => k,
        Err(_) => {
            return Ok(None);
        },
    };
    proof {
        lemma_npdu_decode_within(npdu_part@);
    }
    let apdu_part = tail_of(data, 4 + npdu_len);
    assert(apdu_part@ =~= data@.subrange(4 + npdu_len, data@.len() as int));
    let apdu = match Apdu::decode(apdu_part.as_slice()) {
        Ok(a) => a,
        Err(_) => {
            return Ok(None);
        },
    };
    match apdu {
        Apdu::ComplexAck { invoke_id, service_data, .. } => if invoke_id == expected_invoke_id {
            Ok(Some(service_data))
        } else {
            Ok(None)
        },
        Apdu::SimpleAck { invoke_id, .. } => if invoke_id == expected_invoke_id {
            Ok(Some(Vec::new()))
        } else {
            Ok(None)
        },
        Apdu::Error { invoke_id, error_class, error_code, .. } => if invoke_id == expected_invoke_id {
            Err(ClientError::PropertyError { class: error_class as u32, code: error_code as u32 })
        } else {
            Ok(None)
        },
        Apdu::Reject { invoke_id, reject_reason } => if invoke_id == expected_invoke_id {
            Err(ClientError::Rejected(reject_reason))
        } else {
            Ok(None)
        },
        Apdu::Abort { invoke_id, abort_reason, .. } => if invoke_id == expected_invoke_id {
            Err(ClientError::Abort(abort_reason))
        } else {
            Ok(None)
        },
        _ => Ok(None),
    }
}

/// The octets of `data` from `start` on.
fn tail_of(data: &[u8], start: usize) -> (r: Vec<u8>)
    requires
        start <= data@.len(),
    ensures
        r@ == data@.subrange(start as int, data@.len() as int),
{
    let mut out: Vec<u8> = Vec::new();
    let mut i: usize = start;
    while i < data.len()
        invariant
            start <= i <= data@.len(),
            out@ == data@.subrange(start as int, i as int),
        decreases data@.len() - i,
    {
        out.push(data[i]);
        i = i + 1;
        assert(out@ =~= data@.subrange(start as int, i as int));
    }
    out
}

/// The header of an NPDU for an unconfirmed request: no addresses, no
/// reply expected, normal priority.
pub open spec fn unconfirmed_npdu() -> NpduView {
    (1u8, NpduControl { network_message: false, destination_present: false, source_present: false, expecting_reply: false, priority: 0 }, None, None, None)
}

/// The octets of an unconfirmed request to send over BACnet/IP with BVLC
/// function `bvlc_function`: the BVLC header, whose length field holds the
/// frame's length (kept to 16 bits), the NPDU, then type 0x10, the service
/// choice and the service data.
pub open spec fn unconfirmed_frame(service_choice: u8, service_data: Seq<u8>, bvlc_function: u8) -> Seq<u8> {
    let body = npdu_bytes(unconfirmed_npdu()) + seq![0x10u8, service_choice] + service_data;
    let total = (body.len() + 4) as u16;
    seq![0x81u8, bvlc_function, (total / 256) as u8, (total % 256) as u8] + body
}

/// Build a BACnet/IP frame for an unconfirmed request, with BVLC function
/// 0x0A (unicast) or 0x0B (broadcast).
pub fn create_unconfirmed_bvlc(service_choice: u8, service_data: &[u8], bvlc_function: u8) -> (r: Vec<u8>)
    ensures
        r@ == unconfirmed_frame(service_choice, service_data@, bvlc_function),
{
    let mut npdu = Npdu::new();
    npdu.control.expecting_reply = false;
    npdu.control.priority = 0;
    let npdu_buffer = npdu.encode();
    let mut frame: Vec<u8> = Vec::new();
    frame.push(0x81);
    frame.push(bvlc_function);
    frame.push(0);
    frame.push(0);
    crate::encoding::append_bytes(&mut frame, npdu_buffer.as_slice());
    frame.push(0x10);
    frame.push(service_choice);
    crate::encoding::append_bytes(&mut frame, service_data);
    let total_len: u16 = frame.len() as u16;
    frame.set(2, (total_len / 256) as u8);
    frame.set(3, (total_len % 256) as u8);
    proof {
        let body = npdu_bytes(unconfirmed_npdu()) + seq![0x10u8, service_choice] + service_data@;
        assert(npdu@ == unconfirmed_npdu());
        assert(frame@ =~= seq![0x81u8, bvlc_function, (total_len / 256) as u8, (total_len % 256) as u8] + body);
    }
    frame
}

/// An unconfirmed request sent to one device (BVLC function 0x0A).
pub fn create_unconfirmed_message(service_choice: u8, service_data: &[u8]) -> (r: Vec<u8>)
    ensures
        r@ == unconfirmed_frame(service_choice, service_data@, 0x0A),
{
    create_unconfirmed_bvlc(service_choice, service_data, 0x0A)
}

/// The object identifiers found from `pos` on by scanning for application
/// tag 0xC4: each that decodes is taken (unless it names a device) and
/// skipped whole; any other octet is skipped.
pub open spec fn scanned_identifiers(d: Seq<u8>, pos: int) -> Seq<ObjectIdentifier>
    decreases d.len() - pos,
{
    if pos < 0 || pos >= d.len() {
        Seq::empty()
    } else if d[pos] == 0xC4 {
        match object_identifier_decode(d.subrange(pos, d.len() as int)) {
            Ok((id, k)) => {
                proof {
                    lemma_tag_decode_within(d.subrange(pos, d.len() as int));
                }
                if k >= 1 {
                    (if id.object_type != ObjectType::Device {
                        seq![id]
                    } else {
                        Seq::empty()
                    }) + scanned_identifiers(d, pos + k)
                } else {
                    Seq::empty()
                }
            },
            Err(_) => scanned_identifiers(d, pos + 1),
        }
    } else {
        scanned_identifiers(d, pos + 1)
    }
}

/// Scan a raw response for application-tagged object identifiers (tag
/// 0xC4), leaving out the device object; the fallback when a structured
/// decoder finds nothing.
pub fn scan_object_identifiers(data: &[u8]) -> (r: Vec<ObjectIdentifier>)
    ensures
        r@ == scanned_identifiers(data@, 0),
{
    let mut objects: Vec<ObjectIdentifier> = Vec::new();
    let mut pos: usize = 0;
    while pos < data.len()
        invariant
            pos <= data@.len(),
            objects@ + scanned_identifiers(data@, pos as int) == scanned_identifiers(data@, 0),
        decreases data@.len() - pos,
    {
        if data[pos] == 0xC4 {
            let rest = tail_of(data, pos);
            proof {
                lemma_tag_decode_within(rest@);
            }
            match decode_object_identifier(rest.as_slice()) {
                Ok((identifier, consumed)) => {
                    let ghost before = objects@;
                    if identifier.object_type != ObjectType::Device {
                        objects.push(identifier);
                        assert(objects@ =~= before + seq![identifier]);
                    } else {
                        assert(objects@ =~= before + Seq::<ObjectIdentifier>::empty());
                    }
                    assert(objects@ + scanned_identifiers(data@, pos + consumed) =~= before + scanned_identifiers(data@, pos as int));
                    pos = pos + consumed;
                },
                Err(_) => {
                    pos = pos + 1;
                },
            }
        } else {
            pos = pos + 1;
        }
    }
    assert(objects@ =~= scanned_identifiers(data@, 0));
    objects
}

/// The header of an NPDU for a confirmed request: no addresses, a reply
/// expected, normal priority.
pub open spec fn confirmed_npdu() -> NpduView {
    (1u8, NpduControl { network_message: false, destination_present: false, source_present: false, expecting_reply: true, priority: 0 }, None, None, None)
}

/// The APDU of an unsegmented confirmed request that accepts a segmented
/// response of up to 1476 octets.
pub open spec fn confirmed_apdu(invoke_id: u8, service_choice: u8, service_data: Seq<u8>) -> ApduView {
    ApduView::ConfirmedRequest {
        segmented: false,
        more_follows: false,
        segmented_response_accepted: true,
        max_segments: MaxSegments::Unspecified,
        max_response_size: MaxApduSize::Up1476,
        invoke_id,
        sequence_number: None,
        proposed_window_size: None,
        service_choice,
        service_data,
    }
}

/// The octets of a confirmed request sent to one device over BACnet/IP:
/// the BVLC header (function 0x0A, the frame's length kept to 16 bits),
/// the NPDU, then the APDU.
pub open spec fn confirmed_frame(invoke_id: u8, service_choice: u8, service_data: Seq<u8>) -> Seq<u8> {
    let body = npdu_bytes(confirmed_npdu()) + apdu_bytes(confirmed_apdu(invoke_id, service_choice, service_data));
    let total = (body.len() + 4) as u16;
    seq![0x81u8, 0x0Au8, (total / 256) as u8, (total % 256) as u8] + body
}

/// Build the BACnet/IP frame of a confirmed request with `invoke_id`.
pub fn confirmed_request_frame(invoke_id: u8, service_choice: u8, service_data: &[u8]) -> (r: Vec<u8>)
    ensures
        r@ == confirmed_frame(invoke_id, service_choice, service_data@),
{
    let data = tail_of(service_data, 0);
    assert(data@ =~= service_data@);
    let apdu = Apdu::ConfirmedRequest {
        segmented: false,
        more_follows: false,
        segmented_response_accepted: true,
        max_segments: MaxSegments::Unspecified,
        max_response_size: MaxApduSize::Up1476,
        invoke_id,
        sequence_number: None,
        proposed_window_size: None,
        service_choice,
        service_data: data,
    };
    let apdu_data = apdu.encode();
    let mut npdu = Npdu::new();
    npdu.control.expecting_reply = true;
    npdu.control.priority = 0;
    let npdu_data = npdu.encode();
    let mut frame: Vec<u8> = Vec::new();
    frame.push(0x81);
    frame.push(0x0A);
    frame.push(0);
    frame.push(0);
    crate::encoding::append_bytes(&mut frame, npdu_data.as_slice());
    crate::encoding::append_bytes(&mut frame, apdu_data.as_slice());
    let total_len: u16 = frame.len() as u16;
    frame.set(2, (total_len / 256) as u8);
    frame.set(3, (total_len % 256) as u8);
    proof {
        let body = npdu_bytes(confirmed_npdu()) + apdu_bytes(confirmed_apdu(invoke_id, service_choice, service_data@));
        assert(npdu@ == confirmed_npdu());
        assert(apdu@ == confirmed_apdu(invoke_id, service_choice, service_data@));
        assert(frame@ =~= seq![0x81u8, 0x0Au8, (total_len / 256) as u8, (total_len % 256) as u8] + body);
    }
    frame
}

} // verus!
