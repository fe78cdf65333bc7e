//! The BACnet application layer: APDUs, invoke ids and segmentation.

pub mod segmentation;

use vstd::prelude::*;

use crate::text::{chars_of, concat};

use crate::encoding::append_bytes;

pub use segmentation::{
    InvokeIdManager, SegmentReassemblyBuffer, SegmentationInfo, SegmentationManager, Transaction, TransactionState,
};

verus! {

/// Errors that can occur in application layer operations.
#[derive(Debug)]
pub enum ApplicationError {
    /// Invalid APDU format
    InvalidApdu(String),
    /// Unsupported APDU type
    UnsupportedApduType,
    /// Segmentation error
    SegmentationError(String),
    /// Transaction error
    TransactionError(String),
    /// Service error
    ServiceError(String),
    /// Timeout waiting for response
    Timeout,
    /// Maximum APDU length exceeded
    MaxApduLengthExceeded,
}

/// APDU types, in the order of their numbers (0-7).
#[derive(Debug, Clone, Copy, PartialEq, Eq, Structural)]
pub enum ApduType {
    ConfirmedRequest,
    UnconfirmedRequest,
    SimpleAck,
    ComplexAck,
    SegmentAck,
    Error,
    Reject,
    Abort,
}

/// Maximum segments that can be accepted, in the order of their codes (0-7).
#[derive(Debug, Clone, Copy, PartialEq, Eq, Structural)]
pub enum MaxSegments {
    Unspecified,
    Two,
    Four,
    Eight,
    Sixteen,
    ThirtyTwo,
    SixtyFour,
    GreaterThan64,
}

/// Maximum APDU size that can be accepted, in the order of their codes (0-5).
#[derive(Debug, Clone, Copy, PartialEq, Eq, Structural)]
pub enum MaxApduSize {
    Up50,
    Up128,
    Up206,
    Up480,
    Up1024,
    Up1476,
}

/// The code of a maximum-segments value.
pub open spec fn max_segments_code(m: MaxSegments) -> u8 {
    match m {
        MaxSegments::Unspecified => 0,
        MaxSegments::Two => 1,
        MaxSegments::Four => 2,
        MaxSegments::Eight => 3,
        MaxSegments::Sixteen => 4,
        MaxSegments::ThirtyTwo => 5,
        MaxSegments::SixtyFour => 6,
        MaxSegments::GreaterThan64 => 7,
    }
}

/// The maximum-segments value of a 3-bit code.
pub open spec fn max_segments_of(c: u8) -> MaxSegments {
    if c == 1 { MaxSegments::Two }
    else if c == 2 { MaxSegments::Four }
    else if c == 3 { MaxSegments::Eight }
    else if c == 4 { MaxSegments::Sixteen }
    else if c == 5 { MaxSegments::ThirtyTwo }
    else if c == 6 { MaxSegments::SixtyFour }
    else if c == 7 { MaxSegments::GreaterThan64 }
    else { MaxSegments::Unspecified }
}

/// The code of a maximum APDU size.
pub open spec fn max_apdu_size_code(m: MaxApduSize) -> u8 {
    match m {
        MaxApduSize::Up50 => 0,
        MaxApduSize::Up128 => 1,
        MaxApduSize::Up206 => 2,
        MaxApduSize::Up480 => 3,
        MaxApduSize::Up1024 => 4,
        MaxApduSize::Up1476 => 5,
    }
}

/// The maximum APDU size of a 4-bit code (unknown codes mean 50 octets).
pub open spec fn max_apdu_size_of(c: u8) -> MaxApduSize {
    if c == 1 { MaxApduSize::Up128 }
    else if c == 2 { MaxApduSize::Up206 }
    else if c == 3 { MaxApduSize::Up480 }
    else if c == 4 { MaxApduSize::Up1024 }
    else if c == 5 { MaxApduSize::Up1476 }
    else { MaxApduSize::Up50 }
}

/// The standard's maximum-APDU codes: 0 to 5 stand for 50, 128, 206,
/// 480, 1024 and 1476 octets, a larger size having a larger code; each
/// code from 0 to 5 reads back as the size that has it, and any other
/// code as 50 octets.
pub proof fn lemma_max_apdu_codes(m: MaxApduSize, n: MaxApduSize, c: u8)
    ensures
        max_apdu_size_code(MaxApduSize::Up50) == 0,
        max_apdu_size_code(MaxApduSize::Up128) == 1,
        max_apdu_size_code(MaxApduSize::Up206) == 2,
        max_apdu_size_code(MaxApduSize::Up480) == 3,
        max_apdu_size_code(MaxApduSize::Up1024) == 4,
        max_apdu_size_code(MaxApduSize::Up1476) == 5,
        max_apdu_octets(m) == seq![50usize, 128usize, 206usize, 480usize, 1024usize, 1476usize][max_apdu_size_code(m) as int],
        max_apdu_octets(m) < max_apdu_octets(n) <==> max_apdu_size_code(m) < max_apdu_size_code(n),
        c <= 5 ==> max_apdu_size_code(max_apdu_size_of(c)) == c,
        c > 5 ==> max_apdu_size_of(c) == MaxApduSize::Up50,
{
}

/// The standard's maximum-segments codes: 0 unspecified, then 1 to 6
/// for 2, 4, 8, 16, 32 and 64 segments (code k standing for 2^k), and 7
/// for more than 64; each code from 0 to 7 reads back as the value that
/// has it, and any other as unspecified.
pub proof fn lemma_max_segments_codes(c: u8)
    ensures
        max_segments_code(MaxSegments::Unspecified) == 0,
        max_segments_code(MaxSegments::Two) == 1,
        max_segments_code(MaxSegments::Four) == 2,
        max_segments_code(MaxSegments::Eight) == 3,
        max_segments_code(MaxSegments::Sixteen) == 4,
        max_segments_code(MaxSegments::ThirtyTwo) == 5,
        max_segments_code(MaxSegments::SixtyFour) == 6,
        max_segments_code(MaxSegments::GreaterThan64) == 7,
        c <= 7 ==> max_segments_code(max_segments_of(c)) == c,
        c > 7 ==> max_segments_of(c) == MaxSegments::Unspecified,
{
}

/// The size in octets of a maximum APDU size.
pub open spec fn max_apdu_octets(m: MaxApduSize) -> usize {
    match m {
        MaxApduSize::Up50 => 50,
        MaxApduSize::Up128 => 128,
        MaxApduSize::Up206 => 206,
        MaxApduSize::Up480 => 480,
        MaxApduSize::Up1024 => 1024,
        MaxApduSize::Up1476 => 1476,
    }
}

impl MaxSegments {
    /// The 3-bit code of this value.
    pub fn code(self) -> (r: u8)
        ensures
            r == max_segments_code(self),
    {
        match self {
            MaxSegments::Unspecified => 0,
            MaxSegments::Two => 1,
            MaxSegments::Four => 2,
            MaxSegments::Eight => 3,
            MaxSegments::Sixteen => 4,
            MaxSegments::ThirtyTwo => 5,
            MaxSegments::SixtyFour => 6,
            MaxSegments::GreaterThan64 => 7,
        }
    }

    /// The value of a 3-bit code.
    pub fn from_code(c: u8) -> (r: MaxSegments)
        ensures
            r == max_segments_of(c),
    {
        if c == 1 { MaxSegments::Two }
        else if c == 2 { MaxSegments::Four }
        else if c == 3 { MaxSegments::Eight }
        else if c == 4 { MaxSegments::Sixteen }
        else if c == 5 { MaxSegments::ThirtyTwo }
        else if c == 6 { MaxSegments::SixtyFour }
        else if c == 7 { MaxSegments::GreaterThan64 }
        else { MaxSegments::Unspecified }
    }
}

impl MaxApduSize {
    /// The size in octets.
    pub fn size(&self) -> (r: usize)
        ensures
            r == max_apdu_octets(*self),
    {
        match self {
            MaxApduSize::Up50 => 50,
            MaxApduSize::Up128 => 128,
            MaxApduSize::Up206 => 206,
            MaxApduSize::Up480 => 480,
            MaxApduSize::Up1024 => 1024,
            MaxApduSize::Up1476 => 1476,
        }
    }

    /// The 4-bit code of this size.
    pub fn code(self) -> (r: u8)
        ensures
            r == max_apdu_size_code(self),
    {
        match self {
            MaxApduSize::Up50 => 0,
            MaxApduSize::Up128 => 1,
            MaxApduSize::Up206 => 2,
            MaxApduSize::Up480 => 3,
            MaxApduSize::Up1024 => 4,
            MaxApduSize::Up1476 => 5,
        }
    }

    /// The size of a 4-bit code (unknown codes mean 50 octets).
    pub fn from_code(c: u8) -> (r: MaxApduSize)
        ensures
            r == max_apdu_size_of(c),
    {
        if c == 1 { MaxApduSize::Up128 }
        else if c == 2 { MaxApduSize::Up206 }
        else if c == 3 { MaxApduSize::Up480 }
        else if c == 4 { MaxApduSize::Up1024 }
        else if c == 5 { MaxApduSize::Up1476 }
        else { MaxApduSize::Up50 }
    }
}

/// Application Protocol Data Unit.
#[derive(Debug, Clone)]
pub enum Apdu {
    /// Confirmed service request
    ConfirmedRequest {
        segmented: bool,
        more_follows: bool,
        segmented_response_accepted: bool,
        max_segments: MaxSegments,
        max_response_size: MaxApduSize,
        invoke_id: u8,
        sequence_number: Option<u8>,
        proposed_window_size: Option<u8>,
        service_choice: u8,
        service_data: Vec<u8>,
    },
    /// Unconfirmed service request
    UnconfirmedRequest { service_choice: u8, service_data: Vec<u8> },
    /// Simple acknowledgment
    SimpleAck { invoke_id: u8, service_choice: u8 },
    /// Complex acknowledgment
    ComplexAck {
        segmented: bool,
        more_follows: bool,
        invoke_id: u8,
        sequence_number: Option<u8>,
        proposed_window_size: Option<u8>,
        service_choice: u8,
        service_data: Vec<u8>,
    },
    /// Segment acknowledgment
    SegmentAck { negative: bool, server: bool, invoke_id: u8, sequence_number: u8, window_size: u8 },
    /// Error PDU
    Error { invoke_id: u8, service_choice: u8, error_class: u8, error_code: u8 },
    /// Reject PDU
    Reject { invoke_id: u8, reject_reason: u8 },
    /// Abort PDU
    Abort { server: bool, invoke_id: u8, abort_reason: u8 },
}

/// The abstract content of an APDU: the same, with service data as a sequence.
pub enum ApduView {
    ConfirmedRequest {
        segmented: bool,
        more_follows: bool,
        segmented_response_accepted: bool,
        max_segments: MaxSegments,
        max_response_size: MaxApduSize,
        invoke_id: u8,
        sequence_number: Option<u8>,
        proposed_window_size: Option<u8>,
        service_choice: u8,
        service_data: Seq<u8>,
    },
    UnconfirmedRequest { service_choice: u8, service_data: Seq<u8> },
    SimpleAck { invoke_id: u8, service_choice: u8 },
    ComplexAck {
        segmented: bool,
        more_follows: bool,
        invoke_id: u8,
        sequence_number: Option<u8>,
        proposed_window_size: Option<u8>,
        service_choice: u8,
        service_data: Seq<u8>,
    },
    SegmentAck { negative: bool, server: bool, invoke_id: u8, sequence_number: u8, window_size: u8 },
    Error { invoke_id: u8, service_choice: u8, error_class: u8, error_code: u8 },
    Reject { invoke_id: u8, reject_reason: u8 },
    Abort { server: bool, invoke_id: u8, abort_reason: u8 },
}

impl View for Apdu {
    type V = ApduView;

    open spec fn view(&self) -> ApduView {
        match *self {
            Apdu::ConfirmedRequest {
                segmented,
                more_follows,
                segmented_response_accepted,
                max_segments,
                max_response_size,
                invoke_id,
                sequence_number,
                proposed_window_size,
                service_choice,
                service_data,
            } => ApduView::ConfirmedRequest {
                segmented,
                more_follows,
                segmented_response_accepted,
                max_segments,
                max_response_size,
                invoke_id,
                sequence_number,
                proposed_window_size,
                service_choice,
                service_data: service_data@,
            },
            Apdu::UnconfirmedRequest { service_choice, service_data } => ApduView::UnconfirmedRequest {
                service_choice,
                service_data: service_data@,
            },
            Apdu::SimpleAck { invoke_id, service_choice } => ApduView::SimpleAck { invoke_id, service_choice },
            Apdu::ComplexAck {
                segmented,
                more_follows,
                invoke_id,
                sequence_number,
                proposed_window_size,
                service_choice,
                service_data,
            } => ApduView::ComplexAck {
                segmented,
                more_follows,
                invoke_id,
                sequence_number,
                proposed_window_size,
                service_choice,
                service_data: service_data@,
            },
            Apdu::SegmentAck { negative, server, invoke_id, sequence_number, window_size } => ApduView::SegmentAck {
                negative,
                server,
                invoke_id,
                sequence_number,
                window_size,
            },
            Apdu::Error { invoke_id, service_choice, error_class, error_code } => ApduView::Error {
                invoke_id,
                service_choice,
                error_class,
                error_code,
            },
            Apdu::Reject { invoke_id, reject_reason } => ApduView::Reject { invoke_id, reject_reason },
            Apdu::Abort { server, invoke_id, abort_reason } => ApduView::Abort { server, invoke_id, abort_reason },
        }
    }
}

/// 1 for a set flag, 0 otherwise.
pub open spec fn bit(b: bool) -> int {
    if b { 1 } else { 0 }
}

/// The optional sequence number and window size octets of a segmented PDU.
pub open spec fn segment_fields(segmented: bool, seq: Option<u8>, win: Option<u8>) -> Seq<u8> {
    if segmented {
        (match seq { Some(s) => seq![s], None => seq![] }) + (match win { Some(w) => seq![w], None => seq![] })
    } else {
        seq![]
    }
}

/// The octets of an APDU.
pub open spec fn apdu_bytes(a: ApduView) -> Seq<u8> {
    match a {
        ApduView::ConfirmedRequest {
            segmented,
            more_follows,
            segmented_response_accepted,
            max_segments,
            max_response_size,
            invoke_id,
            sequence_number,
            proposed_window_size,
            service_choice,
            service_data,
        } => seq![
            (8 * bit(segmented) + 4 * bit(more_follows) + 2 * bit(segmented_response_accepted)) as u8,
            (max_segments_code(max_segments) * 16 + max_apdu_size_code(max_response_size)) as u8,
            invoke_id,
        ] + segment_fields(segmented, sequence_number, proposed_window_size) + seq![service_choice] + service_data,
        ApduView::UnconfirmedRequest { service_choice, service_data } => seq![0x10u8, service_choice] + service_data,
        ApduView::SimpleAck { invoke_id, service_choice } => seq![0x20u8, invoke_id, service_choice],
        ApduView::ComplexAck {
            segmented,
            more_follows,
            invoke_id,
            sequence_number,
            proposed_window_size,
            service_choice,
            service_data,
        } => seq![(0x30 + 8 * bit(segmented) + 4 * bit(more_follows)) as u8, invoke_id]
            + segment_fields(segmented, sequence_number, proposed_window_size) + seq![service_choice] + service_data,
        ApduView::SegmentAck { negative, server, invoke_id, sequence_number, window_size } => seq![
            (0x40 + 2 * bit(negative) + bit(server)) as u8,
            invoke_id,
            sequence_number,
            window_size,
        ],
        ApduView::Error { invoke_id, service_choice, error_class, error_code } => seq![
            0x50u8,
            invoke_id,
            service_choice,
            error_class,
            error_code,
        ],
        ApduView::Reject { invoke_id, reject_reason } => seq![0x60u8, invoke_id, reject_reason],
        ApduView::Abort { server, invoke_id, abort_reason } => seq![(0x70 + bit(server)) as u8, invoke_id, abort_reason],
    }
}

/// The first octet of an APDU holds its PDU type in the high four bits,
/// numbered as Clause 20.1 numbers them: Confirmed-Request 0,
/// Unconfirmed-Request 1, SimpleACK 2, ComplexACK 3, SegmentACK 4, Error 5,
/// Reject 6, Abort 7; a confirmed request's second octet holds the
/// maximum-segments code in its high four bits and the maximum-APDU code
/// in its low four.
pub proof fn lemma_apdu_type_octet(a: ApduView)
    ensures
        apdu_bytes(a).len() >= 2,
        a is ConfirmedRequest ==> apdu_bytes(a)[0] / 16 == 0,
        a is UnconfirmedRequest ==> apdu_bytes(a)[0] / 16 == 1,
        a is SimpleAck ==> apdu_bytes(a)[0] / 16 == 2,
        a is ComplexAck ==> apdu_bytes(a)[0] / 16 == 3,
        a is SegmentAck ==> apdu_bytes(a)[0] / 16 == 4,
        a is Error ==> apdu_bytes(a)[0] / 16 == 5,
        a is Reject ==> apdu_bytes(a)[0] / 16 == 6,
        a is Abort ==> apdu_bytes(a)[0] / 16 == 7,
        a matches ApduView::ConfirmedRequest { max_segments, max_response_size, .. } ==> apdu_bytes(a)[1] / 16
            == max_segments_code(max_segments) && apdu_bytes(a)[1] % 16 == max_apdu_size_code(max_response_size),
{
    lemma_max_apdu_codes(MaxApduSize::Up50, MaxApduSize::Up50, 0);
    lemma_max_segments_codes(0);
    match a {
        ApduView::ConfirmedRequest { max_segments, max_response_size, .. } => {
            assert(max_segments_code(max_segments) <= 7 && max_apdu_size_code(max_response_size) <= 5);
        },
        _ => {},
    }
}

/// Why an APDU could not be decoded.
pub enum ApduFault {
    /// The type number is above 7 (`UnsupportedApduType`).
    Unsupported,
    /// The PDU is too short for its type (`InvalidApdu`).
    Invalid,
}

/// The octet at `pos` if there is one.
pub open spec fn octet_at(d: Seq<u8>, pos: int) -> Option<u8> {
    if pos < d.len() {
        Some(d[pos])
    } else {
        None
    }
}

/// Decoding the part of a confirmed request or complex ack after the
/// fixed header, which ends at `pos`: optional sequence number and window
/// size (each present only if there are octets for it), service choice
/// and service data.
pub open spec fn tail_decode(d: Seq<u8>, pos: int, segmented: bool) -> Option<(Option<u8>, Option<u8>, u8, Seq<u8>)> {
    let seq_num = if segmented { octet_at(d, pos) } else { None };
    let win = if segmented { octet_at(d, pos + 1) } else { None };
    let p = if segmented { pos + 2 } else { pos };
    if p >= d.len() {
        None
    } else {
        Some((seq_num, win, d[p], d.subrange(p + 1, d.len() as int)))
    }
}

/// What decoding an APDU from `d` gives.
pub open spec fn apdu_decode(d: Seq<u8>) -> Result<ApduView, ApduFault> {
    if d.len() == 0 {
        Err(ApduFault::Invalid)
    } else {
        let b = d[0];
        let t = b / 16;
        if t == 0 {
            if d.len() < 4 {
                Err(ApduFault::Invalid)
            } else {
                let segmented = (b / 8) % 2 == 1;
                match tail_decode(d, 3, segmented) {
                    None => Err(ApduFault::Invalid),
                    Some((sequence_number, proposed_window_size, service_choice, service_data)) => Ok(ApduView::ConfirmedRequest {
                        segmented,
                        more_follows: (b / 4) % 2 == 1,
                        segmented_response_accepted: (b / 2) % 2 == 1,
                        max_segments: max_segments_of(((d[1] / 16) % 8) as u8),
                        max_response_size: max_apdu_size_of(d[1] % 16),
                        invoke_id: d[2],
                        sequence_number,
                        proposed_window_size,
                        service_choice,
                        service_data,
                    }),
                }
            }
        } else if t == 1 {
            if d.len() < 2 {
                Err(ApduFault::Invalid)
            } else {
                Ok(ApduView::UnconfirmedRequest { service_choice: d[1], service_data: d.subrange(2, d.len() as int) })
            }
        } else if t == 2 {
            if d.len() < 3 {
                Err(ApduFault::Invalid)
            } else {
                Ok(ApduView::SimpleAck { invoke_id: d[1], service_choice: d[2] })
            }
        } else if t == 3 {
            if d.len() < 3 {
                Err(ApduFault::Invalid)
            } else {
                let segmented = (b / 8) % 2 == 1;
                match tail_decode(d, 2, segmented) {
                    None => Err(ApduFault::Invalid),
                    Some((sequence_number, proposed_window_size, service_choice, service_data)) => Ok(ApduView::ComplexAck {
                        segmented,
                        more_follows: (b / 4) % 2 == 1,
                        invoke_id: d[1],
                        sequence_number,
                        proposed_window_size,
                        service_choice,
                        service_data,
                    }),
                }
            }
        } else if t == 4 {
            if d.len() < 4 {
                Err(ApduFault::Invalid)
            } else {
                Ok(ApduView::SegmentAck {
                    negative: (b / 2) % 2 == 1,
                    server: b % 2 == 1,
                    invoke_id: d[1],
                    sequence_number: d[2],
                    window_size: d[3],
                })
            }
        } else if t == 5 {
            if d.len() < 5 {
                Err(ApduFault::Invalid)
            } else {
                Ok(ApduView::Error { invoke_id: d[1], service_choice: d[2], error_class: d[3], error_code: d[4] })
            }
        } else if t == 6 {
            if d.len() < 3 {
                Err(ApduFault::Invalid)
            } else {
                Ok(ApduView::Reject { invoke_id: d[1], reject_reason: d[2] })
            }
        } else if t == 7 {
            if d.len() < 3 {
                Err(ApduFault::Invalid)
            } else {
                Ok(ApduView::Abort { server: b % 2 == 1, invoke_id: d[1], abort_reason: d[2] })
            }
        } else {
            Err(ApduFault::Unsupported)
        }
    }
}

/// Appends the sequence number and window size of a segmented PDU.
fn push_segment_fields(buffer: &mut Vec<u8>, segmented: bool, seq: Option<u8>, win: Option<u8>)
    ensures
        final(buffer)@ == old(buffer)@ + segment_fields(segmented, seq, win),
{
    if segmented {
        if let Some(s) = seq {
            buffer.push(s);
        }
        if let Some(w) = win {
            buffer.push(w);
        }
    }
    assert(final(buffer)@ =~= old(buffer)@ + segment_fields(segmented, seq, win));
}

/// The rest of `data` from `pos` on (empty past the end).
fn rest_from(data: &[u8], pos: usize) -> (r: Vec<u8>)
    requires
        pos <= data@.len(),
    ensures
        r@ == data@.subrange(pos as int, data@.len() as int),
{
    vstd::slice::slice_to_vec(vstd::slice::slice_subrange(data, pos, data.len()))
}

impl Apdu {
    /// Encode the APDU.
    pub fn encode(&self) -> (r: Vec<u8>)
        ensures
            r@ == apdu_bytes(self@),
    {
        let mut buffer: Vec<u8> = Vec::new();
        match self {
            Apdu::ConfirmedRequest {
                segmented,
                more_follows,
                segmented_response_accepted,
                max_segments,
                max_response_size,
                invoke_id,
                sequence_number,
                proposed_window_size,
                service_choice,
                service_data,
            } => {
                let mut pdu_type: u8 = 0;
                if *segmented {
                    pdu_type = pdu_type + 8;
                }
                if *more_follows {
                    pdu_type = pdu_type + 4;
                }
                if *segmented_response_accepted {
                    pdu_type = pdu_type + 2;
                }
                buffer.push(pdu_type);
                buffer.push(max_segments.code() * 16 + max_response_size.code());
                buffer.push(*invoke_id);
                push_segment_fields(&mut buffer, *segmented, *sequence_number, *proposed_window_size);
                buffer.push(*service_choice);
                append_bytes(&mut buffer, service_data.as_slice());
            },
            Apdu::UnconfirmedRequest { service_choice, service_data } => {
                buffer.push(0x10);
                buffer.push(*service_choice);
                append_bytes(&mut buffer, service_data.as_slice());
            },
            Apdu::SimpleAck { invoke_id, service_choice } => {
                buffer.push(0x20);
                buffer.push(*invoke_id);
                buffer.push(*service_choice);
            },
            Apdu::ComplexAck {
                segmented,
                more_follows,
                invoke_id,
                sequence_number,
                proposed_window_size,
                service_choice,
                service_data,
            } => {
                let mut pdu_type: u8 = 0x30;
                if *segmented {
                    pdu_type = pdu_type + 8;
                }
                if *more_follows {
                    pdu_type = pdu_type + 4;
                }
                buffer.push(pdu_type);
                buffer.push(*invoke_id);
                push_segment_fields(&mut buffer, *segmented, *sequence_number, *proposed_window_size);
                buffer.push(*service_choice);
                append_bytes(&mut buffer, service_data.as_slice());
            },
            Apdu::SegmentAck { negative, server, invoke_id, sequence_number, window_size } => {
                let mut pdu_type: u8 = 0x40;
                if *negative {
                    pdu_type = pdu_type + 2;
                }
                if *server {
                    pdu_type = pdu_type + 1;
                }
                buffer.push(pdu_type);
                buffer.push(*invoke_id);
                buffer.push(*sequence_number);
                buffer.push(*window_size);
            },
            Apdu::Error { invoke_id, service_choice, error_class, error_code } => {
                buffer.push(0x50);
                buffer.push(*invoke_id);
                buffer.push(*service_choice);
                buffer.push(*error_class);
                buffer.push(*error_code);
            },
            Apdu::Reject { invoke_id, reject_reason } => {
                buffer.push(0x60);
                buffer.push(*invoke_id);
                buffer.push(*reject_reason);
            },
            Apdu::Abort { server, invoke_id, abort_reason } => {
                let mut pdu_type: u8 = 0x70;
                if *server {
                    pdu_type = pdu_type + 1;
                }
                buffer.push(pdu_type);
                buffer.push(*invoke_id);
                buffer.push(*abort_reason);
            },
        }
        assert(buffer@ =~= apdu_bytes(self@));
        buffer
    }

    /// Decodes the tail of a confirmed request or complex ack from `pos`.
    fn decode_tail(data: &[u8], pos: usize, segmented: bool) -> (r: Option<(Option<u8>, Option<u8>, u8, Vec<u8>)>)
        requires
            pos <= data@.len(),
        ensures
            match tail_decode(data@, pos as int, segmented) {
                None => r is None,
                Some((s, w, c, v)) => r matches Some((s2, w2, c2, v2)) && s2 == s && w2 == w && c2 == c && v2@ == v,
            },
    {
        let mut p = pos;
        let (seq_num, win) = if segmented {
            let s = if p < data.len() { Some(data[p]) } else { None };
            let w = if data.len() > 1 && p < data.len() - 1 { Some(data[p + 1]) } else { None };
            if data.len() - p < 2 {
                return None;
            }
            p = p + 2;
            (s, w)
        } else {
            (None, None)
        };
        if p >= data.len() {
            return None;
        }
        let service_choice = data[p];
        Some((seq_num, win, service_choice, rest_from(data, p + 1)))
    }

    /// Decode an APDU. Empty input, or input too short for its type, is
    /// `InvalidApdu`; a type number above 7 is `UnsupportedApduType`.
    pub fn decode(data: &[u8]) -> (r: Result<Self, ApplicationError>)
        ensures
            match apdu_decode(data@) {
                Ok(v) => r matches Ok(a) && a@ == v,
                Err(ApduFault::Unsupported) => r matches Err(ApplicationError::UnsupportedApduType),
                Err(ApduFault::Invalid) => r matches Err(ApplicationError::InvalidApdu(_)),
            },
    {
        if data.len() == 0 {
            return Err(ApplicationError::InvalidApdu("Empty APDU".to_string()));
        }
        let b = data[0];
        let t = b / 16;
        if t == 0 {
            if data.len() < 4 {
                return Err(ApplicationError::InvalidApdu("Confirmed request too short".to_string()));
            }
            let segmented = (b / 8) % 2 == 1;
            match Self::decode_tail(data, 3, segmented) {
                None => Err(ApplicationError::InvalidApdu("Missing service choice".to_string())),
                Some((sequence_number, proposed_window_size, service_choice, service_data)) => Ok(Apdu::ConfirmedRequest {
                    segmented,
                    more_follows: (b / 4) % 2 == 1,
                    segmented_response_accepted: (b / 2) % 2 == 1,
                    max_segments: MaxSegments::from_code((data[1] / 16) % 8),
                    max_response_size: MaxApduSize::from_code(data[1] % 16),
                    invoke_id: data[2],
                    sequence_number,
                    proposed_window_size,
                    service_choice,
                    service_data,
                }),
            }
        } else if t == 1 {
            if data.len() < 2 {
                return Err(ApplicationError::InvalidApdu("Unconfirmed request too short".to_string()));
            }
            Ok(Apdu::UnconfirmedRequest { service_choice: data[1], service_data: rest_from(data, 2) })
        } else if t == 2 {
            if data.len() < 3 {
                return Err(ApplicationError::InvalidApdu("SimpleAck too short".to_string()));
            }
            Ok(Apdu::SimpleAck { invoke_id: data[1], service_choice: data[2] })
        } else if t == 3 {
            if data.len() < 3 {
                return Err(ApplicationError::InvalidApdu("ComplexAck too short".to_string()));
            }
            let segmented = (b / 8) % 2 == 1;
            match Self::decode_tail(data, 2, segmented) {
                None => Err(ApplicationError::InvalidApdu("Missing service choice".to_string())),
                Some((sequence_number, proposed_window_size, service_choice, service_data)) => Ok(Apdu::ComplexAck {
                    segmented,
                    more_follows: (b / 4) % 2 == 1,
                    invoke_id: data[1],
                    sequence_number,
                    proposed_window_size,
                    service_choice,
                    service_data,
                }),
            }
        } else if t == 4 {
            if data.len() < 4 {
                return Err(ApplicationError::InvalidApdu("SegmentAck too short".to_string()));
            }
            Ok(Apdu::SegmentAck {
                negative: (b / 2) % 2 == 1,
                server: b % 2 == 1,
                invoke_id: data[1],
                sequence_number: data[2],
                window_size: data[3],
            })
        } else if t == 5 {
            if data.len() < 5 {
                return Err(ApplicationError::InvalidApdu("Error PDU too short".to_string()));
            }
            Ok(Apdu::Error { invoke_id: data[1], service_choice: data[2], error_class: data[3], error_code: data[4] })
        } else if t == 6 {
            if data.len() < 3 {
                return Err(ApplicationError::InvalidApdu("Reject PDU too short".to_string()));
            }
            Ok(Apdu::Reject { invoke_id: data[1], reject_reason: data[2] })
        } else if t == 7 {
            if data.len() < 3 {
                return Err(ApplicationError::InvalidApdu("Abort PDU too short".to_string()));
            }
            Ok(Apdu::Abort { server: b % 2 == 1, invoke_id: data[1], abort_reason: data[2] })
        } else {
            Err(ApplicationError::UnsupportedApduType)
        }
    }
}

/// Whether an APDU reads back as itself: a segmented request or ack
/// carries both its sequence number and window size, an unsegmented one
/// neither.
pub open spec fn apdu_well_formed(a: ApduView) -> bool {
    match a {
        ApduView::ConfirmedRequest { segmented, sequence_number, proposed_window_size, .. } => if segmented {
            sequence_number is Some && proposed_window_size is Some
        } else {
            sequence_number is None && proposed_window_size is None
        },
        ApduView::ComplexAck { segmented, sequence_number, proposed_window_size, .. } => if segmented {
            sequence_number is Some && proposed_window_size is Some
        } else {
            sequence_number is None && proposed_window_size is None
        },
        _ => true,
    }
}

/// Decoding an encoded, well-formed APDU gives it back.
pub proof fn lemma_apdu_round_trip(a: ApduView)
    requires
        apdu_well_formed(a),
    ensures
        apdu_decode(apdu_bytes(a)) == Ok::<ApduView, ApduFault>(a),
{
    let d = apdu_bytes(a);
    match a {
        ApduView::ConfirmedRequest { segmented, max_segments, max_response_size, service_data, .. } => {
            let m = max_segments_code(max_segments) * 16 + max_apdu_size_code(max_response_size);
            assert(((m / 16) % 8) as u8 == max_segments_code(max_segments));
            assert(m % 16 == max_apdu_size_code(max_response_size));
            assert(max_segments_of(max_segments_code(max_segments)) == max_segments);
            assert(max_apdu_size_of(max_apdu_size_code(max_response_size)) == max_response_size);
            let p: int = if segmented { 5 } else { 3 };
            assert(d.subrange(p + 1, d.len() as int) =~= service_data);
        },
        ApduView::UnconfirmedRequest { service_data, .. } => {
            assert(d.subrange(2, d.len() as int) =~= service_data);
        },
        ApduView::ComplexAck { segmented, service_data, .. } => {
            let p: int = if segmented { 4 } else { 2 };
            assert(d.subrange(p + 1, d.len() as int) =~= service_data);
        },
        _ => {},
    }
}

/// The text of an application layer error.
pub open spec fn application_error_text(e: ApplicationError) -> Seq<char> {
    match e {
        ApplicationError::InvalidApdu(msg) => "Invalid APDU: "@ + msg@,
        ApplicationError::UnsupportedApduType => "Unsupported APDU type"@,
        ApplicationError::SegmentationError(msg) => "Segmentation error: "@ + msg@,
        ApplicationError::TransactionError(msg) => "Transaction error: "@ + msg@,
        ApplicationError::ServiceError(msg) => "Service error: "@ + msg@,
        ApplicationError::Timeout => "Application timeout"@,
        ApplicationError::MaxApduLengthExceeded => "Maximum APDU length exceeded"@,
    }
}

impl ApplicationError {
    /// The text of this error.
    pub fn to_string(&self) -> (r: String)
        ensures
            r@ == application_error_text(*self),
    {
        match self {
            ApplicationError::InvalidApdu(msg) => concat(chars_of("Invalid APDU: "), msg.as_str()),
            ApplicationError::UnsupportedApduType => chars_of("Unsupported APDU type"),
            ApplicationError::SegmentationError(msg) => concat(chars_of("Segmentation error: "), msg.as_str()),
            ApplicationError::TransactionError(msg) => concat(chars_of("Transaction error: "), msg.as_str()),
            ApplicationError::ServiceError(msg) => concat(chars_of("Service error: "), msg.as_str()),
            ApplicationError::Timeout => chars_of("Application timeout"),
            ApplicationError::MaxApduLengthExceeded => chars_of("Maximum APDU length exceeded"),
        }
    }
}

} // verus!
