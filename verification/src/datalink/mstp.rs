//! MS/TP (master-slave/token-passing) frames over RS-485.

use vstd::prelude::*;

use super::DataLinkError;
use crate::encoding::append_bytes;
use crate::util::{crc16_mstp, crc16_mstp_spec};

verus! {

pub const MSTP_PREAMBLE_55: u8 = 0x55;

pub const MSTP_PREAMBLE_FF: u8 = 0xFF;

/// Maximum data length of an MS/TP frame.
pub const MSTP_MAX_DATA_LENGTH: usize = 501;

/// Preamble and header octets.
pub const MSTP_HEADER_SIZE: usize = 8;

/// Header, maximum data and data CRC.
pub const MSTP_MAX_FRAME_SIZE: usize = 511;

/// MS/TP frame types, in the order of their numbers (0-7).
#[derive(Debug, Clone, Copy, PartialEq, Eq, Structural)]
pub enum MstpFrameType {
    Token,
    PollForMaster,
    ReplyToPollForMaster,
    TestRequest,
    TestResponse,
    BacnetDataExpectingReply,
    BacnetDataNotExpectingReply,
    ReplyPostponed,
}

/// The number of a frame type.
pub open spec fn frame_type_code(t: MstpFrameType) -> u8 {
    match t {
        MstpFrameType::Token => 0,
        MstpFrameType::PollForMaster => 1,
        MstpFrameType::ReplyToPollForMaster => 2,
        MstpFrameType::TestRequest => 3,
        MstpFrameType::TestResponse => 4,
        MstpFrameType::BacnetDataExpectingReply => 5,
        MstpFrameType::BacnetDataNotExpectingReply => 6,
        MstpFrameType::ReplyPostponed => 7,
    }
}

impl MstpFrameType {
    /// The frame type with number `value`, if any.
    pub fn from_u8(value: u8) -> (r: Option<Self>)
        ensures
            value <= 7 ==> (r matches Some(t) && frame_type_code(t) == value),
            value > 7 ==> r is None,
    {
        match value {
            0 => Some(MstpFrameType::Token),
            1 => Some(MstpFrameType::PollForMaster),
            2 => Some(MstpFrameType::ReplyToPollForMaster),
            3 => Some(MstpFrameType::TestRequest),
            4 => Some(MstpFrameType::TestResponse),
            5 => Some(MstpFrameType::BacnetDataExpectingReply),
            6 => Some(MstpFrameType::BacnetDataNotExpectingReply),
            7 => Some(MstpFrameType::ReplyPostponed),
            _ => None,
        }
    }

    /// The number of this frame type.
    pub fn code(self) -> (r: u8)
        ensures
            r == frame_type_code(self),
    {
        match self {
            MstpFrameType::Token => 0,
            MstpFrameType::PollForMaster => 1,
            MstpFrameType::ReplyToPollForMaster => 2,
            MstpFrameType::TestRequest => 3,
            MstpFrameType::TestResponse => 4,
            MstpFrameType::BacnetDataExpectingReply => 5,
            MstpFrameType::BacnetDataNotExpectingReply => 6,
            MstpFrameType::ReplyPostponed => 7,
        }
    }
}

/// One bit step of the header CRC of BACnet Annex G: the polynomial
/// x^8 + x^7 + 1, taken in reflected form (0x81).
pub open spec fn header_crc_bit(crc: u8) -> u8 {
    if crc & 1 != 0 {
        (crc >> 1u8) ^ 0x81u8
    } else {
        crc >> 1u8
    }
}

/// `n` bit steps of the header CRC.
pub open spec fn header_crc_bits(crc: u8, n: nat) -> u8
    decreases n,
{
    if n == 0 {
        crc
    } else {
        header_crc_bits(header_crc_bit(crc), (n - 1) as nat)
    }
}

/// The header CRC register after taking in `data`, starting from `crc`.
pub open spec fn header_crc_register(crc: u8, data: Seq<u8>) -> u8
    decreases data.len(),
{
    if data.len() == 0 {
        crc
    } else {
        header_crc_register(header_crc_bits(crc ^ data[0], 8), data.drop_first())
    }
}

/// The header CRC of the five header octets, as Annex G computes it:
/// register starting at 0xFF, result complemented.
pub open spec fn header_crc_spec(header: Seq<u8>) -> u8 {
    !header_crc_register(0xFF, header)
}

/// The header CRC step is that of the generator x^8 + x^7 + 1 taken
/// bit-reflected (0x81): it is linear, and a register whose lowest bit
/// differs moves to one that differs by the generator.
pub proof fn lemma_header_crc_step_generator(x: u8, y: u8)
    ensures
        header_crc_bit(x ^ y) == header_crc_bit(x) ^ header_crc_bit(y),
        header_crc_bit(x) ^ header_crc_bit(x ^ 1u8) == 0x81u8,
        header_crc_bit(x & 0xFEu8) == x >> 1u8,
{
    assert(header_crc_bit(x ^ y) == header_crc_bit(x) ^ header_crc_bit(y)) by (bit_vector);
    assert(header_crc_bit(x) ^ header_crc_bit(x ^ 1u8) == 0x81u8) by (bit_vector);
    assert(header_crc_bit(x & 0xFEu8) == x >> 1u8) by (bit_vector);
}

/// Taking in `a` then `b` is taking in `a + b`.
proof fn lemma_header_crc_register_append(crc: u8, a: Seq<u8>, b: Seq<u8>)
    ensures
        header_crc_register(crc, a + b) == header_crc_register(header_crc_register(crc, a), b),
    decreases a.len(),
{
    if a.len() > 0 {
        assert((a + b).drop_first() =~= a.drop_first() + b);
        lemma_header_crc_register_append(header_crc_bits(crc ^ a[0], 8), a.drop_first(), b);
    } else {
        assert(a + b =~= b);
    }
}

/// A receiver that takes in the header and then the header CRC octet a
/// sender computed for it ends with the register at 0x55, the check that
/// Annex G prescribes.
pub proof fn lemma_header_crc_check(header: Seq<u8>)
    ensures
        header_crc_register(0xFF, header.push(header_crc_spec(header))) == 0x55,
{
    let r = header_crc_register(0xFF, header);
    let c = header_crc_spec(header);
    assert(header.push(c) =~= header + seq![c]);
    lemma_header_crc_register_append(0xFF, header, seq![c]);
    assert(c == !r);
    assert(r ^ !r == 0xFFu8) by (bit_vector);
    assert(seq![c].drop_first() =~= Seq::<u8>::empty());
    assert(header_crc_register(header_crc_bits(r ^ c, 8), Seq::<u8>::empty()) == header_crc_bits(r ^ c, 8));
    assert(header_crc_register(r, seq![c]) == header_crc_bits(0xFF, 8));
    assert(header_crc_bits(0xFF, 8) == 0x55) by {
        reveal_with_fuel(header_crc_bits, 9);
        assert(header_crc_bit(0xFF) == 0xFE) by (bit_vector);
        assert(header_crc_bit(0xFE) == 0x7F) by (bit_vector);
        assert(header_crc_bit(0x7F) == 0xBE) by (bit_vector);
        assert(header_crc_bit(0xBE) == 0x5F) by (bit_vector);
        assert(header_crc_bit(0x5F) == 0xAE) by (bit_vector);
        assert(header_crc_bit(0xAE) == 0x57) by (bit_vector);
        assert(header_crc_bit(0x57) == 0xAA) by (bit_vector);
        assert(header_crc_bit(0xAA) == 0x55) by (bit_vector);
    }
}

/// The header CRC of the five header octets (frame type, destination,
/// source, data length high and low).
pub fn calculate_header_crc(header: &[u8; 5]) -> (r: u8)
    ensures
        r == header_crc_spec(header@),
{
    let mut crc: u8 = 0xFF;
    let mut i: usize = 0;
    assert(header@.subrange(0, 5) =~= header@);
    while i < 5
        invariant
            i <= 5,
            header@.len() == 5,
            header_crc_register(crc, header@.subrange(i as int, 5)) == header_crc_register(0xFF, header@),
        decreases 5 - i,
    {
        let ghost rest = header@.subrange(i as int, 5);
        let ghost start = crc ^ header@[i as int];
        crc = crc ^ header[i];
        let mut k: u8 = 0;
        while k < 8
            invariant
                k <= 8,
                header_crc_bits(crc, (8 - k) as nat) == header_crc_bits(start, 8),
            decreases 8 - k,
        {
            if crc & 1 != 0 {
                crc = (crc >> 1u8) ^ 0x81u8;
            } else {
                crc = crc >> 1u8;
            }
            k = k + 1;
        }
        assert(rest.drop_first() =~= header@.subrange(i + 1, 5));
        i = i + 1;
    }
    assert(header@.subrange(5, 5) =~= Seq::<u8>::empty());
    !crc
}

/// The five header octets of a frame.
pub open spec fn header_octets(t: MstpFrameType, destination: u8, source: u8, data_length: u16) -> Seq<u8> {
    seq![frame_type_code(t), destination, source, (data_length / 256) as u8, (data_length % 256) as u8]
}

/// An MS/TP frame.
#[derive(Debug, Clone)]
pub struct MstpFrame {
    pub frame_type: MstpFrameType,
    pub destination: u8,
    pub source: u8,
    pub data_length: u16,
    pub header_crc: u8,
    pub data: Vec<u8>,
    pub data_crc: Option<u16>,
}

/// The abstract content of a frame.
pub type MstpFrameView = (MstpFrameType, u8, u8, u16, u8, Seq<u8>, Option<u16>);

impl View for MstpFrame {
    type V = MstpFrameView;

    open spec fn view(&self) -> MstpFrameView {
        (self.frame_type, self.destination, self.source, self.data_length, self.header_crc, self.data@, self.data_crc)
    }
}

/// The frame `new` builds: the data's length, the header CRC over the
/// header octets, and the data CRC if there is data.
pub open spec fn mstp_frame_of(t: MstpFrameType, destination: u8, source: u8, data: Seq<u8>) -> MstpFrameView {
    (
        t,
        destination,
        source,
        data.len() as u16,
        header_crc_spec(header_octets(t, destination, source, data.len() as u16)),
        data,
        if data.len() > 0 { Some(crc16_mstp_spec(data)) } else { None },
    )
}

/// The octets of a frame: preamble, header, header CRC, then (if there is
/// data) the data and its CRC, low octet first.
pub open spec fn mstp_frame_bytes(f: MstpFrameView) -> Seq<u8> {
    seq![MSTP_PREAMBLE_55, MSTP_PREAMBLE_FF] + header_octets(f.0, f.1, f.2, f.3) + seq![f.4] + if f.5.len() > 0 {
        f.5 + match f.6 {
            Some(crc) => seq![(crc % 256) as u8, (crc / 256) as u8],
            None => seq![],
        }
    } else {
        seq![]
    }
}

/// What decoding a frame gives: `InvalidFrame` for a short frame, a bad
/// preamble, an unknown frame type or a size that does not match the
/// data length; `CrcError` for a header or data CRC that does not match.
pub enum MstpDecodeFault {
    InvalidFrame,
    CrcError,
}

/// The frame type with a number, if any.
pub open spec fn frame_type_of(v: u8) -> Option<MstpFrameType> {
    if v == 0 { Some(MstpFrameType::Token) }
    else if v == 1 { Some(MstpFrameType::PollForMaster) }
    else if v == 2 { Some(MstpFrameType::ReplyToPollForMaster) }
    else if v == 3 { Some(MstpFrameType::TestRequest) }
    else if v == 4 { Some(MstpFrameType::TestResponse) }
    else if v == 5 { Some(MstpFrameType::BacnetDataExpectingReply) }
    else if v == 6 { Some(MstpFrameType::BacnetDataNotExpectingReply) }
    else if v == 7 { Some(MstpFrameType::ReplyPostponed) }
    else { None }
}

/// The MS/TP frame types carry the numbers of Clause 9.3: Token 0,
/// Poll-For-Master 1, Reply-To-Poll-For-Master 2, Test-Request 3,
/// Test-Response 4, BACnet-Data-Expecting-Reply 5,
/// BACnet-Data-Not-Expecting-Reply 6 and Reply-Postponed 7; a number reads
/// back as exactly the type that has it.
pub proof fn lemma_frame_type_numbers(t: MstpFrameType, v: u8)
    ensures
        frame_type_code(MstpFrameType::Token) == 0,
        frame_type_code(MstpFrameType::PollForMaster) == 1,
        frame_type_code(MstpFrameType::ReplyToPollForMaster) == 2,
        frame_type_code(MstpFrameType::TestRequest) == 3,
        frame_type_code(MstpFrameType::TestResponse) == 4,
        frame_type_code(MstpFrameType::BacnetDataExpectingReply) == 5,
        frame_type_code(MstpFrameType::BacnetDataNotExpectingReply) == 6,
        frame_type_code(MstpFrameType::ReplyPostponed) == 7,
        frame_type_of(v) == Some(t) <==> frame_type_code(t) == v,
{
}

/// What decoding a frame from `d` gives.
pub open spec fn mstp_frame_decode(d: Seq<u8>) -> Result<MstpFrameView, MstpDecodeFault> {
    if d.len() < 8 || d[0] != MSTP_PREAMBLE_55 || d[1] != MSTP_PREAMBLE_FF {
        Err(MstpDecodeFault::InvalidFrame)
    } else {
        match frame_type_of(d[2]) {
            None => Err(MstpDecodeFault::InvalidFrame),
            Some(t) => {
                let len = (d[5] as int) * 256 + (d[6] as int);
                if header_crc_spec(d.subrange(2, 7)) != d[7] {
                    Err(MstpDecodeFault::CrcError)
                } else if d.len() != 8 + len + (if len > 0 { 2int } else { 0int }) {
                    Err(MstpDecodeFault::InvalidFrame)
                } else if len > 0 {
                    let data = d.subrange(8, 8 + len);
                    let crc = (d[8 + len + 1] as int) * 256 + (d[8 + len] as int);
                    if crc16_mstp_spec(data) != crc {
                        Err(MstpDecodeFault::CrcError)
                    } else {
                        Ok((t, d[3], d[4], len as u16, d[7], data, Some(crc as u16)))
                    }
                } else {
                    Ok((t, d[3], d[4], 0u16, d[7], Seq::<u8>::empty(), None::<u16>))
                }
            },
        }
    }
}

impl MstpFrame {
    /// A frame carrying `data`, with its length and CRCs; data longer than
    /// 501 octets is `InvalidFrame`.
    pub fn new(frame_type: MstpFrameType, destination: u8, source: u8, data: Vec<u8>) -> (r: Result<Self, DataLinkError>)
        ensures
            data@.len() > MSTP_MAX_DATA_LENGTH ==> r matches Err(DataLinkError::InvalidFrame),
            data@.len() <= MSTP_MAX_DATA_LENGTH ==> (r matches Ok(f) && f@ == mstp_frame_of(frame_type, destination, source, data@)),
    {
        if data.len() > MSTP_MAX_DATA_LENGTH {
            return Err(DataLinkError::InvalidFrame);
        }
        let data_length = data.len() as u16;
        let header_bytes: [u8; 5] = [frame_type.code(), destination, source, (data_length / 256) as u8, (data_length % 256) as u8];
        assert(header_bytes@ =~= header_octets(frame_type, destination, source, data_length));
        let header_crc = calculate_header_crc(&header_bytes);
        let data_crc = if data.len() > 0 { Some(crc16_mstp(data.as_slice())) } else { None };
        Ok(MstpFrame { frame_type, destination, source, data_length, header_crc, data, data_crc })
    }

    /// A token frame.
    pub fn token(destination: u8, source: u8) -> (r: Result<Self, DataLinkError>)
        ensures
            r matches Ok(f) && f@ == mstp_frame_of(MstpFrameType::Token, destination, source, Seq::<u8>::empty()),
    {
        let empty: Vec<u8> = Vec::new();
        assert(empty@ =~= Seq::<u8>::empty());
        Self::new(MstpFrameType::Token, destination, source, empty)
    }

    /// A data frame, expecting a reply or not.
    pub fn bacnet_data(destination: u8, source: u8, data: Vec<u8>, expecting_reply: bool) -> (r: Result<Self, DataLinkError>)
        ensures
            data@.len() > MSTP_MAX_DATA_LENGTH ==> r matches Err(DataLinkError::InvalidFrame),
            data@.len() <= MSTP_MAX_DATA_LENGTH ==> (r matches Ok(f) && f@ == mstp_frame_of(
                if expecting_reply { MstpFrameType::BacnetDataExpectingReply } else { MstpFrameType::BacnetDataNotExpectingReply },
                destination,
                source,
                data@,
            )),
    {
        let frame_type = if expecting_reply {
            MstpFrameType::BacnetDataExpectingReply
        } else {
            MstpFrameType::BacnetDataNotExpectingReply
        };
        Self::new(frame_type, destination, source, data)
    }

    /// Encode the frame.
    pub fn encode(&self) -> (r: Vec<u8>)
        ensures
            r@ == mstp_frame_bytes(self@),
    {
        let mut frame: Vec<u8> = Vec::new();
        frame.push(MSTP_PREAMBLE_55);
        frame.push(MSTP_PREAMBLE_FF);
        frame.push(self.frame_type.code());
        frame.push(self.destination);
        frame.push(self.source);
        frame.push((self.data_length / 256) as u8);
        frame.push((self.data_length % 256) as u8);
        frame.push(self.header_crc);
        if self.data.len() > 0 {
            append_bytes(&mut frame, self.data.as_slice());
            if let Some(crc) = self.data_crc {
                frame.push((crc % 256) as u8);
                frame.push((crc / 256) as u8);
            }
        }
        assert(frame@ =~= mstp_frame_bytes(self@));
        frame
    }

    /// Decode a frame, checking the preamble, frame type, header CRC, size
    /// and data CRC.
    pub fn decode(data: &[u8]) -> (r: Result<Self, DataLinkError>)
        ensures
            match mstp_frame_decode(data@) {
                Ok(f) => r matches Ok(x) && x@ == f,
                Err(MstpDecodeFault::InvalidFrame) => r matches Err(DataLinkError::InvalidFrame),
                Err(MstpDecodeFault::CrcError) => r matches Err(DataLinkError::CrcError),
            },
    {
        if data.len() < MSTP_HEADER_SIZE {
            return Err(DataLinkError::InvalidFrame);
        }
        if data[0] != MSTP_PREAMBLE_55 || data[1] != MSTP_PREAMBLE_FF {
            return Err(DataLinkError::InvalidFrame);
        }
        let frame_type = match MstpFrameType::from_u8(data[2]) {
            Some(t) => t,
            None => {
                return Err(DataLinkError::InvalidFrame);
            },
        };
        let destination = data[3];
        let source = data[4];
        let data_length: u16 = (data[5] as u16) * 256 + (data[6] as u16);
        let header_crc = data[7];
        let header_bytes: [u8; 5] = [data[2], data[3], data[4], data[5], data[6]];
        assert(header_bytes@ =~= data@.subrange(2, 7));
        if calculate_header_crc(&header_bytes) != header_crc {
            return Err(DataLinkError::CrcError);
        }
        let expected_size: usize = MSTP_HEADER_SIZE + data_length as usize + if data_length > 0 { 2 } else { 0 };
        if data.len() != expected_size {
            return Err(DataLinkError::InvalidFrame);
        }
        if data_length > 0 {
            let data_end = MSTP_HEADER_SIZE + data_length as usize;
            let frame_data = vstd::slice::slice_to_vec(vstd::slice::slice_subrange(data, MSTP_HEADER_SIZE, data_end));
            let crc_low = data[data_end];
            let crc_high = data[data_end + 1];
            let data_crc: u16 = (crc_high as u16) * 256 + (crc_low as u16);
            if crc16_mstp(frame_data.as_slice()) != data_crc {
                return Err(DataLinkError::CrcError);
            }
            Ok(MstpFrame { frame_type, destination, source, data_length, header_crc, data: frame_data, data_crc: Some(data_crc) })
        } else {
            let r = MstpFrame { frame_type, destination, source, data_length, header_crc, data: Vec::new(), data_crc: None };
            assert(r.data@ =~= Seq::<u8>::empty());
            Ok(r)
        }
    }

    /// Whether this is a token frame.
    pub fn is_token(&self) -> (r: bool)
        ensures
            r <==> self.frame_type == MstpFrameType::Token,
    {
        self.frame_type == MstpFrameType::Token
    }

    /// Whether this is a data frame (expecting a reply or not).
    pub fn is_data(&self) -> (r: bool)
        ensures
            r <==> (self.frame_type == MstpFrameType::BacnetDataExpectingReply || self.frame_type
                == MstpFrameType::BacnetDataNotExpectingReply),
    {
        self.frame_type == MstpFrameType::BacnetDataExpectingReply || self.frame_type
            == MstpFrameType::BacnetDataNotExpectingReply
    }
}

/// Decoding the encoding of a frame built by `new` gives the frame back.
pub proof fn lemma_mstp_round_trip(t: MstpFrameType, destination: u8, source: u8, data: Seq<u8>)
    requires
        data.len() <= MSTP_MAX_DATA_LENGTH,
    ensures
        mstp_frame_decode(mstp_frame_bytes(mstp_frame_of(t, destination, source, data)))
            == Ok::<MstpFrameView, MstpDecodeFault>(mstp_frame_of(t, destination, source, data)),
{
    let f = mstp_frame_of(t, destination, source, data);
    let d = mstp_frame_bytes(f);
    let len = data.len() as u16;
    assert(d.subrange(2, 7) =~= header_octets(t, destination, source, len));
    assert(frame_type_of(frame_type_code(t)) == Some(t));
    assert((d[5] as int) * 256 + (d[6] as int) == data.len());
    assert(d[7] == f.4);
    assert(d[3] == destination && d[4] == source);
    if data.len() > 0 {
        let n = data.len() as int;
        assert(d.len() == 8 + n + 2);
        assert(d.subrange(8, 8 + n) =~= data);
        let crc = crc16_mstp_spec(data);
        assert(d[8 + n] == (crc % 256) as u8 && d[8 + n + 1] == (crc / 256) as u8);
        assert((d[8 + n + 1] as int) * 256 + (d[8 + n] as int) == crc);
    } else {
        assert(d.len() == 8);
        assert(data =~= Seq::<u8>::empty());
    }
}

/// MS/TP master node states.
#[derive(Debug, Clone, Copy, PartialEq, Eq, Structural)]
pub enum MstpState {
    Initialize,
    Idle,
    UseToken,
    PassToken,
    AnswerDataRequest,
    DoneWithToken,
}

/// MS/TP configuration.
#[derive(Debug, Clone, Copy, PartialEq, Eq, Structural)]
pub struct MstpConfig {
    pub station_address: u8,
    pub max_master: u8,
    pub max_info_frames: u8,
    pub token_timeout: u64,
    pub reply_timeout: u64,
    pub usage_timeout: u64,
}

impl Default for MstpConfig {
    /// Station 1, masters up to 127, one information frame per token,
    /// timeouts of 500, 255 and 50 ms.
    fn default() -> (r: Self)
        ensures
            r == (MstpConfig { station_address: 1, max_master: 127, max_info_frames: 1, token_timeout: 500, reply_timeout: 255, usage_timeout: 50 }),
    {
        MstpConfig { station_address: 1, max_master: 127, max_info_frames: 1, token_timeout: 500, reply_timeout: 255, usage_timeout: 50 }
    }
}

/// Validates an MS/TP address: every octet is one (0-127 masters,
/// 128-254 slaves, 255 broadcast).
pub fn validate_mstp_address(address: u8) -> (r: Result<(), DataLinkError>)
    ensures
        r is Ok,
{
    Ok(())
}

/// Whether an address is a master node (0-127).
pub fn is_master_node(address: u8) -> (r: bool)
    ensures
        r <==> address <= 127,
{
    address <= 127
}

/// Whether an address is a slave node (128-254).
pub fn is_slave_node(address: u8) -> (r: bool)
    ensures
        r <==> 128 <= address <= 254,
{
    address >= 128 && address <= 254
}


/// The views of a sequence of frames.
pub open spec fn frames_view(s: Seq<MstpFrame>) -> Seq<MstpFrameView> {
    s.map_values(|f: MstpFrame| f@)
}

/// The token-passing state of an MS/TP master node: its configuration, its
/// state, who holds the token, the station the token goes to next, the
/// frames waiting for the token and the data received (with its source).
#[derive(Debug)]
pub struct MstpNode {
    pub config: MstpConfig,
    pub state: MstpState,
    pub token_holder: Option<u8>,
    pub next_station: u8,
    pub send_queue: Vec<MstpFrame>,
    pub receive_queue: Vec<(Vec<u8>, u8)>,
}

/// The station after `station` among the masters 0..=`max_master`.
pub open spec fn station_after(station: int, max_master: int) -> int {
    (station + 1) % (max_master + 1)
}

impl MstpNode {
    /// The node's invariant: the highest master is below 255 and the next
    /// station is one of the masters.
    pub open spec fn wf(&self) -> bool {
        &&& self.config.max_master < 255
        &&& self.next_station <= self.config.max_master
    }

    /// A node that has just started: state `Initialize`, no token, nothing
    /// queued, the token to go to the station after this one.
    pub fn new(config: MstpConfig) -> (r: Self)
        requires
            config.station_address < 255,
            config.max_master < 255,
        ensures
            r.wf(),
            r.config == config,
            r.state == MstpState::Initialize,
            r.token_holder is None,
            r.next_station == station_after(config.station_address as int, config.max_master as int),
            r.send_queue@.len() == 0,
            r.receive_queue@.len() == 0,
    {
        let next_station: u8 = (config.station_address + 1) % (config.max_master + 1);
        MstpNode {
            config,
            state: MstpState::Initialize,
            token_holder: None,
            next_station,
            send_queue: Vec::new(),
            receive_queue: Vec::new(),
        }
    }

    /// Queue `data` for `destination` (255 broadcasts) as a data frame not
    /// expecting a reply, to go out when the node holds the token; data
    /// longer than 501 octets is `InvalidFrame` and queues nothing.
    pub fn queue_data_frame(&mut self, data: Vec<u8>, destination: u8) -> (r: Result<(), DataLinkError>)
        ensures
            data@.len() > MSTP_MAX_DATA_LENGTH ==> (r matches Err(DataLinkError::InvalidFrame) && *final(self) == *old(self)),
            data@.len() <= MSTP_MAX_DATA_LENGTH ==> {
                &&& r is Ok
                &&& frames_view(final(self).send_queue@) == frames_view(old(self).send_queue@).push(
                    mstp_frame_of(MstpFrameType::BacnetDataNotExpectingReply, destination, old(self).config.station_address, data@),
                )
                &&& final(self).config == old(self).config
                &&& final(self).state == old(self).state
                &&& final(self).token_holder == old(self).token_holder
                &&& final(self).next_station == old(self).next_station
                &&& final(self).receive_queue@ == old(self).receive_queue@
            },
    {
        let frame = match MstpFrame::bacnet_data(destination, self.config.station_address, data, false) {
            Ok(f) => f,
            Err(e) => {
                return Err(e);
            },
        };
        self.send_queue.push(frame);
        assert(frames_view(self.send_queue@) =~= frames_view(old(self).send_queue@).push(
            mstp_frame_of(MstpFrameType::BacnetDataNotExpectingReply, destination, old(self).config.station_address, data@),
        ));
        Ok(())
    }

    /// Use the token: take up to `max_info_frames` queued frames, oldest
    /// first, then a token frame to the next station, and move the next
    /// station on by one. Returns the frames to transmit, in order.
    pub fn handle_token(&mut self) -> (r: Vec<MstpFrame>)
        requires
            old(self).wf(),
        ensures
            final(self).wf(),
            ({
                let k = if old(self).config.max_info_frames as int <= old(self).send_queue@.len() {
                    old(self).config.max_info_frames as int
                } else {
                    old(self).send_queue@.len() as int
                };
                &&& frames_view(r@) == frames_view(old(self).send_queue@.take(k)).push(
                    mstp_frame_of(MstpFrameType::Token, old(self).next_station, old(self).config.station_address, Seq::<u8>::empty()),
                )
                &&& final(self).send_queue@ == old(self).send_queue@.skip(k)
            }),
            final(self).next_station == station_after(old(self).next_station as int, old(self).config.max_master as int),
            final(self).config == old(self).config,
            final(self).state == old(self).state,
            final(self).token_holder == old(self).token_holder,
            final(self).receive_queue@ == old(self).receive_queue@,
    {
        let mut out: Vec<MstpFrame> = Vec::new();
        let mut sent: u8 = 0;
        while sent < self.config.max_info_frames && self.send_queue.len() > 0
            invariant
                self.config == old(self).config,
                self.state == old(self).state,
                self.token_holder == old(self).token_holder,
                self.next_station == old(self).next_station,
                self.receive_queue@ == old(self).receive_queue@,
                sent <= self.config.max_info_frames,
                sent as int <= old(self).send_queue@.len(),
                out@ == old(self).send_queue@.take(sent as int),
                self.send_queue@ == old(self).send_queue@.skip(sent as int),
            decreases self.send_queue@.len(),
        {
            let frame = self.send_queue.remove(0);
            out.push(frame);
            sent = sent + 1;
            assert(out@ =~= old(self).send_queue@.take(sent as int));
            assert(self.send_queue@ =~= old(self).send_queue@.skip(sent as int));
        }
        let next = self.next_station;
        let token = match MstpFrame::token(next, self.config.station_address) {
            Ok(f) => f,
            Err(_) => {
                return out;
            },
        };
        let ghost before = out@;
        out.push(token);
        assert(frames_view(out@) =~= frames_view(before).push(token@));
        self.next_station = (self.next_station + 1) % (self.config.max_master + 1);
        out
    }

    /// Take in a frame from the wire: a data frame with data queues its data
    /// and source for reception; a token for this station gives it the
    /// token and puts it in `UseToken`.
    pub fn simulate_receive(&mut self, frame: MstpFrame)
        ensures
            final(self).config == old(self).config,
            final(self).next_station == old(self).next_station,
            final(self).send_queue@ == old(self).send_queue@,
            final(self).receive_queue@ == if frame.is_data_spec() && frame.data@.len() > 0 {
                old(self).receive_queue@.push((frame.data, frame.source))
            } else {
                old(self).receive_queue@
            },
            frame.frame_type == MstpFrameType::Token && frame.destination == old(self).config.station_address ==> {
                &&& final(self).token_holder == Some(old(self).config.station_address)
                &&& final(self).state == MstpState::UseToken
            },
            !(frame.frame_type == MstpFrameType::Token && frame.destination == old(self).config.station_address) ==> {
                &&& final(self).token_holder == old(self).token_holder
                &&& final(self).state == old(self).state
            },
    {
        let is_token_for_us = frame.is_token() && frame.destination == self.config.station_address;
        if frame.is_data() && frame.data.len() > 0 {
            let source = frame.source;
            self.receive_queue.push((frame.data, source));
        }
        if is_token_for_us {
            self.token_holder = Some(self.config.station_address);
            self.state = MstpState::UseToken;
        }
    }

    /// Take the oldest received data and its source; `InvalidFrame` when
    /// nothing has been received.
    pub fn receive_frame(&mut self) -> (r: Result<(Vec<u8>, u8), DataLinkError>)
        ensures
            old(self).receive_queue@.len() == 0 ==> (r matches Err(DataLinkError::InvalidFrame) && *final(self) == *old(self)),
            old(self).receive_queue@.len() > 0 ==> {
                &&& r matches Ok(x) && x == old(self).receive_queue@[0]
                &&& final(self).receive_queue@ == old(self).receive_queue@.drop_first()
                &&& final(self).send_queue@ == old(self).send_queue@
                &&& final(self).config == old(self).config
                &&& final(self).state == old(self).state
                &&& final(self).token_holder == old(self).token_holder
                &&& final(self).next_station == old(self).next_station
            },
    {
        if self.receive_queue.len() == 0 {
            return Err(DataLinkError::InvalidFrame);
        }
        let first = self.receive_queue.remove(0);
        assert(self.receive_queue@ =~= old(self).receive_queue@.drop_first());
        Ok(first)
    }
}

impl MstpFrame {
    /// Whether this is a data frame (expecting a reply or not).
    pub open spec fn is_data_spec(&self) -> bool {
        self.frame_type == MstpFrameType::BacnetDataExpectingReply || self.frame_type
            == MstpFrameType::BacnetDataNotExpectingReply
    }
}

/// The station the token goes to after `k` passes from `station`.
pub open spec fn station_after_passes(station: int, max_master: int, k: nat) -> int
    decreases k,
{
    if k == 0 {
        station
    } else {
        station_after(station_after_passes(station, max_master, (k - 1) as nat), max_master)
    }
}

/// Passing the token `k` times from a master moves it `k` stations on,
/// round the masters 0..=`max_master`.
pub proof fn lemma_passes_move_on(station: int, max_master: int, k: nat)
    requires
        0 <= station <= max_master,
    ensures
        station_after_passes(station, max_master, k) == (station + k) % (max_master + 1),
    decreases k,
{
    if k > 0 {
        lemma_passes_move_on(station, max_master, (k - 1) as nat);
        let p = station_after_passes(station, max_master, (k - 1) as nat);
        assert(p == (station + k - 1) % (max_master + 1));
        assert((p + 1) % (max_master + 1) == (station + k) % (max_master + 1)) by {
            vstd::arithmetic::div_mod::lemma_add_mod_noop(station + k - 1, 1, max_master + 1);
            vstd::arithmetic::div_mod::lemma_add_mod_noop(p, 1, max_master + 1);
            vstd::arithmetic::div_mod::lemma_mod_twice(station + k - 1, max_master + 1);
        }
    } else {
        vstd::arithmetic::div_mod::lemma_small_mod(station as nat, (max_master + 1) as nat);
    }
}

/// Token passing reaches every master: from any master, each master gets
/// the token within `max_master + 1` passes.
pub proof fn lemma_token_reaches_every_master(station: int, max_master: int, target: int)
    requires
        0 <= station <= max_master,
        0 <= target <= max_master,
    ensures
        exists|k: nat| k <= max_master && #[trigger] station_after_passes(station, max_master, k) == target,
{
    let n = max_master + 1;
    let k: nat = if target >= station { (target - station) as nat } else { (target + n - station) as nat };
    lemma_passes_move_on(station, max_master, k);
    if target >= station {
        assert(station + k == target);
        vstd::arithmetic::div_mod::lemma_small_mod(target as nat, n as nat);
    } else {
        assert(station + k == target + n);
        vstd::arithmetic::div_mod::lemma_mod_add_multiples_vanish(target, n);
        vstd::arithmetic::div_mod::lemma_small_mod(target as nat, n as nat);
    }
    assert(station_after_passes(station, max_master, k) == target);
}

} // verus!
