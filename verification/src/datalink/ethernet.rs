//! BACnet over Ethernet (ISO 8802-2 LLC framing).

use vstd::prelude::*;
use vstd::string::StringSliceAdditionalSpecFns;
use vstd::utf8::encode_utf8;

use super::DataLinkError;
use crate::encoding::append_bytes;

verus! {

/// The Ethernet broadcast address.
pub const ETHERNET_BROADCAST_MAC: [u8; 6] = [0xFF, 0xFF, 0xFF, 0xFF, 0xFF, 0xFF];

/// The Ethernet type this crate gives BACnet frames.
pub const BACNET_ETHERNET_TYPE: u16 = 0x82DC;

/// The LLC header of BACnet frames (DSAP, SSAP, control).
pub const BACNET_LLC_HEADER: [u8; 3] = [0x82, 0x82, 0x03];

/// Minimum Ethernet frame size without the frame check sequence.
pub const MIN_ETHERNET_FRAME_SIZE: usize = 60;

/// Maximum Ethernet frame size without the frame check sequence.
pub const MAX_ETHERNET_FRAME_SIZE: usize = 1514;

/// Ethernet header size (two addresses and the type).
pub const ETHERNET_HEADER_SIZE: usize = 14;

/// LLC header size.
pub const LLC_HEADER_SIZE: usize = 3;

/// Ethernet and LLC headers together.
pub const BACNET_ETHERNET_HEADER_SIZE: usize = 17;

/// A BACnet/Ethernet frame.
#[derive(Debug, Clone)]
pub struct EthernetFrame {
    pub dest_mac: [u8; 6],
    pub src_mac: [u8; 6],
    pub ether_type: u16,
    pub llc_header: [u8; 3],
    pub payload: Vec<u8>,
}

/// The abstract content of a frame.
pub type EthernetFrameView = (Seq<u8>, Seq<u8>, u16, Seq<u8>, Seq<u8>);

impl View for EthernetFrame {
    type V = EthernetFrameView;

    open spec fn view(&self) -> EthernetFrameView {
        (self.dest_mac@, self.src_mac@, self.ether_type, self.llc_header@, self.payload@)
    }
}

/// The octets of a frame before padding.
pub open spec fn ethernet_unpadded(f: EthernetFrameView) -> Seq<u8> {
    f.0 + f.1 + seq![(f.2 / 256) as u8, (f.2 % 256) as u8] + f.3 + f.4
}

/// The octets of a frame: headers and payload, padded with zeros to 60.
pub open spec fn ethernet_bytes(f: EthernetFrameView) -> Seq<u8> {
    let u = ethernet_unpadded(f);
    if u.len() < 60 {
        u + Seq::new((60 - u.len()) as nat, |i: int| 0u8)
    } else {
        u
    }
}

/// What decoding a frame from `d` gives; `None` for `InvalidFrame`: fewer
/// than 17 octets, another Ethernet type, or another LLC header. The
/// payload is everything after the headers, padding included.
pub open spec fn ethernet_decode(d: Seq<u8>) -> Option<EthernetFrameView> {
    if d.len() < 17 || (d[12] as int) * 256 + (d[13] as int) != 0x82DC || d.subrange(14, 17) != seq![0x82u8, 0x82u8, 0x03u8] {
        None
    } else {
        Some((d.subrange(0, 6), d.subrange(6, 12), 0x82DCu16, d.subrange(14, 17), d.subrange(17, d.len() as int)))
    }
}

impl EthernetFrame {
    /// A BACnet frame carrying `npdu`.
    pub fn new(dest_mac: [u8; 6], src_mac: [u8; 6], npdu: Vec<u8>) -> (r: Self)
        ensures
            r@ == (dest_mac@, src_mac@, 0x82DCu16, seq![0x82u8, 0x82u8, 0x03u8], npdu@),
    {
        let llc: [u8; 3] = [0x82, 0x82, 0x03];
        assert(llc@ =~= seq![0x82u8, 0x82u8, 0x03u8]);
        EthernetFrame { dest_mac, src_mac, ether_type: BACNET_ETHERNET_TYPE, llc_header: llc, payload: npdu }
    }

    /// A broadcast frame carrying `npdu`.
    pub fn broadcast(src_mac: [u8; 6], npdu: Vec<u8>) -> (r: Self)
        ensures
            r@ == (seq![0xFFu8, 0xFFu8, 0xFFu8, 0xFFu8, 0xFFu8, 0xFFu8], src_mac@, 0x82DCu16, seq![0x82u8, 0x82u8, 0x03u8], npdu@),
    {
        let bcast: [u8; 6] = [0xFF, 0xFF, 0xFF, 0xFF, 0xFF, 0xFF];
        assert(bcast@ =~= seq![0xFFu8, 0xFFu8, 0xFFu8, 0xFFu8, 0xFFu8, 0xFFu8]);
        Self::new(bcast, src_mac, npdu)
    }

    /// Encode the frame, padding it with zeros to 60 octets.
    pub fn encode(&self) -> (r: Vec<u8>)
        ensures
            r@ == ethernet_bytes(self@),
    {
        let mut frame: Vec<u8> = Vec::new();
        append_bytes(&mut frame, &self.dest_mac);
        append_bytes(&mut frame, &self.src_mac);
        frame.push((self.ether_type / 256) as u8);
        frame.push((self.ether_type % 256) as u8);
        append_bytes(&mut frame, &self.llc_header);
        append_bytes(&mut frame, self.payload.as_slice());
        let ghost u = frame@;
        assert(u =~= ethernet_unpadded(self@));
        while frame.len() < MIN_ETHERNET_FRAME_SIZE
            invariant
                u.len() <= frame@.len(),
                frame@ == u + Seq::new((frame@.len() - u.len()) as nat, |i: int| 0u8),
                u.len() < 60 ==> frame@.len() <= 60,
                u.len() >= 60 ==> frame@.len() == u.len(),
            decreases 60 - frame@.len(),
        {
            frame.push(0);
            assert(frame@ =~= u + Seq::new((frame@.len() - u.len()) as nat, |i: int| 0u8));
        }
        proof {
            if u.len() >= 60 {
                assert(Seq::new(0nat, |i: int| 0u8) =~= Seq::<u8>::empty());
                assert(frame@ =~= u);
            }
        }
        frame
    }

    /// Decode a frame.
    pub fn decode(data: &[u8]) -> (r: Result<Self, DataLinkError>)
        ensures
            match ethernet_decode(data@) {
                None => r matches Err(DataLinkError::InvalidFrame),
                Some(f) => r matches Ok(x) && x@ == f,
            },
    {
        if data.len() < BACNET_ETHERNET_HEADER_SIZE {
            return Err(DataLinkError::InvalidFrame);
        }
        let dest_mac: [u8; 6] = [data[0], data[1], data[2], data[3], data[4], data[5]];
        let src_mac: [u8; 6] = [data[6], data[7], data[8], data[9], data[10], data[11]];
        let ether_type: u16 = (data[12] as u16) * 256 + (data[13] as u16);
        if ether_type != BACNET_ETHERNET_TYPE {
            return Err(DataLinkError::InvalidFrame);
        }
        let llc_header: [u8; 3] = [data[14], data[15], data[16]];
        if !(data[14] == 0x82 && data[15] == 0x82 && data[16] == 0x03) {
            proof {
                if data@.subrange(14, 17) == seq![0x82u8, 0x82u8, 0x03u8] {
                    assert(data@.subrange(14, 17)[0] == data@[14]);
                    assert(data@.subrange(14, 17)[1] == data@[15]);
                    assert(data@.subrange(14, 17)[2] == data@[16]);
                }
            }
            return Err(DataLinkError::InvalidFrame);
        }
        assert(data@.subrange(14, 17) =~= seq![0x82u8, 0x82u8, 0x03u8]);
        assert(dest_mac@ =~= data@.subrange(0, 6));
        assert(src_mac@ =~= data@.subrange(6, 12));
        assert(llc_header@ =~= data@.subrange(14, 17));
        let payload = vstd::slice::slice_to_vec(vstd::slice::slice_subrange(data, 17, data.len()));
        Ok(EthernetFrame { dest_mac, src_mac, ether_type, llc_header, payload })
    }

    /// Whether the destination is the broadcast address.
    pub fn is_broadcast(&self) -> (r: bool)
        ensures
            r <==> self.dest_mac@ == seq![0xFFu8, 0xFFu8, 0xFFu8, 0xFFu8, 0xFFu8, 0xFFu8],
    {
        let d = &self.dest_mac;
        let r = d[0] == 0xFF && d[1] == 0xFF && d[2] == 0xFF && d[3] == 0xFF && d[4] == 0xFF && d[5] == 0xFF;
        proof {
            if r {
                assert(self.dest_mac@ =~= seq![0xFFu8, 0xFFu8, 0xFFu8, 0xFFu8, 0xFFu8, 0xFFu8]);
            }
            if self.dest_mac@ == seq![0xFFu8, 0xFFu8, 0xFFu8, 0xFFu8, 0xFFu8, 0xFFu8] {
                assert(self.dest_mac@[0] == 0xFF && self.dest_mac@[5] == 0xFF);
            }
        }
        r
    }

    /// Whether the destination is a group (multicast or broadcast) address:
    /// the low bit of its first octet is set.
    pub fn is_multicast(&self) -> (r: bool)
        ensures
            r <==> self.dest_mac@[0] % 2 == 1,
    {
        self.dest_mac[0] % 2 == 1
    }
}

/// Decoding an encoded BACnet frame gives back its addresses and headers,
/// and a payload that starts with the one encoded (padding may follow).
pub proof fn lemma_ethernet_round_trip(f: EthernetFrameView)
    requires
        f.0.len() == 6,
        f.1.len() == 6,
        f.2 == 0x82DC,
        f.3 == seq![0x82u8, 0x82u8, 0x03u8],
    ensures
        ethernet_decode(ethernet_bytes(f)) matches Some(g) && g.0 == f.0 && g.1 == f.1 && g.2 == f.2 && g.3 == f.3
            && g.4.subrange(0, f.4.len() as int) == f.4,
{
    let u = ethernet_unpadded(f);
    let d = ethernet_bytes(f);
    assert(d.subrange(0, u.len() as int) =~= u);
    assert(d[12] == u[12] && d[13] == u[13]);
    assert(d.subrange(14, 17) =~= f.3);
    assert(d.subrange(0, 6) =~= f.0);
    assert(d.subrange(6, 12) =~= f.1);
    assert(d.subrange(17, d.len() as int).subrange(0, f.4.len() as int) =~= f.4);
}

/// The value of a hexadecimal digit octet, if it is one.
pub open spec fn hex_digit_value(b: u8) -> Option<nat> {
    if 0x30 <= b <= 0x39 {
        Some((b - 0x30) as nat)
    } else if 0x41 <= b <= 0x46 {
        Some((b - 0x41 + 10) as nat)
    } else if 0x61 <= b <= 0x66 {
        Some((b - 0x61 + 10) as nat)
    } else {
        None
    }
}

/// The value of a string of hexadecimal digits, if all are digits.
pub open spec fn hex_digits_value(p: Seq<u8>) -> Option<nat>
    decreases p.len(),
{
    if p.len() == 0 {
        Some(0)
    } else {
        match (hex_digits_value(p.drop_last()), hex_digit_value(p.last())) {
            (Some(v), Some(d)) => Some(v * 16 + d),
            _ => None,
        }
    }
}

/// The octet a field of a MAC address stands for, read as an unsigned
/// hexadecimal number as `u8::from_str_radix` reads it: an optional `+`,
/// then one or more digits, with a value of at most 255.
pub open spec fn hex_field(p: Seq<u8>) -> Option<u8> {
    let digits = if p.len() > 0 && p[0] == 0x2B { p.drop_first() } else { p };
    if digits.len() == 0 {
        None
    } else {
        match hex_digits_value(digits) {
            Some(v) => if v <= 255 { Some(v as u8) } else { None },
            None => None,
        }
    }
}

/// The fields of `b` between colons (n colons make n + 1 fields).
pub open spec fn colon_fields(b: Seq<u8>) -> Seq<Seq<u8>>
    decreases b.len(),
{
    if b.len() == 0 {
        seq![seq![]]
    } else {
        let f = colon_fields(b.drop_last());
        if b.last() == 0x3A {
            f.push(seq![])
        } else {
            f.update(f.len() - 1, f.last().push(b.last()))
        }
    }
}

/// There is always at least one field.
proof fn lemma_colon_fields_len(b: Seq<u8>)
    ensures
        colon_fields(b).len() >= 1,
    decreases b.len(),
{
    if b.len() > 0 {
        lemma_colon_fields_len(b.drop_last());
    }
}

/// The MAC address text `b` stands for: six colon-separated hexadecimal
/// fields.
pub open spec fn mac_parse(b: Seq<u8>) -> Option<Seq<u8>> {
    let f = colon_fields(b);
    if f.len() != 6 {
        None
    } else if forall|i: int| 0 <= i < 6 ==> #[trigger] hex_field(f[i]) is Some {
        Some(Seq::new(6, |i: int| hex_field(f[i])->0))
    } else {
        None
    }
}

/// The value of a hexadecimal digit octet.
fn hex_digit_of(b: u8) -> (r: Option<u8>)
    ensures
        match hex_digit_value(b) {
            Some(v) => r == Some(v as u8),
            None => r is None,
        },
{
    if b >= 0x30 && b <= 0x39 {
        Some(b - 0x30)
    } else if b >= 0x41 && b <= 0x46 {
        Some(b - 0x41 + 10)
    } else if b >= 0x61 && b <= 0x66 {
        Some(b - 0x61 + 10)
    } else {
        None
    }
}

/// A value of hexadecimal digits is at least that of any prefix.
proof fn lemma_hex_prefix_monotone(p: Seq<u8>, k: int)
    requires
        0 <= k <= p.len(),
        hex_digits_value(p) is Some,
    ensures
        hex_digits_value(p.subrange(0, k)) is Some,
        hex_digits_value(p.subrange(0, k))->0 <= hex_digits_value(p)->0,
    decreases p.len(),
{
    if k < p.len() {
        assert(p.drop_last().subrange(0, k) =~= p.subrange(0, k));
        lemma_hex_prefix_monotone(p.drop_last(), k);
    } else {
        assert(p.subrange(0, k) =~= p);
    }
}

/// Reads one field of `b` (octets `start .. end`) as an octet.
fn parse_field(b: &[u8], start: usize, end: usize) -> (r: Option<u8>)
    requires
        start <= end <= b@.len(),
    ensures
        r == hex_field(b@.subrange(start as int, end as int)),
{
    let ghost p = b@.subrange(start as int, end as int);
    let mut i = start;
    if i < end && b[i] == 0x2B {
        i = i + 1;
    }
    let ghost digits = b@.subrange(i as int, end as int);
    assert(digits =~= (if p.len() > 0 && p[0] == 0x2B { p.drop_first() } else { p }));
    if i == end {
        return None;
    }
    let mut acc: u16 = 0;
    let mut k = i;
    while k < end
        invariant
            i <= k <= end <= b@.len(),
            i < end,
            p == b@.subrange(start as int, end as int),
            digits == (if p.len() > 0 && p[0] == 0x2B { p.drop_first() } else { p }),
            digits == b@.subrange(i as int, end as int),
            hex_digits_value(b@.subrange(i as int, k as int)) == Some(acc as nat),
            acc <= 255,
        decreases end - k,
    {
        assert(b@.subrange(i as int, k + 1).drop_last() =~= b@.subrange(i as int, k as int));
        assert(b@.subrange(i as int, k + 1).last() == b@[k as int]);
        assert(digits.subrange(0, k + 1 - i) =~= b@.subrange(i as int, k + 1));
        match hex_digit_of(b[k]) {
            None => {
                proof {
                    assert(hex_digit_value(b@[k as int]) is None);
                    assert(hex_digits_value(b@.subrange(i as int, k + 1)) is None);
                    if hex_digits_value(digits) is Some {
                        lemma_hex_prefix_monotone(digits, k + 1 - i);
                    }
                    assert(hex_digits_value(digits) is None);
                    assert(hex_field(p) is None);
                }
                return None;
            },
            Some(d) => {
                let next: u16 = acc * 16 + d as u16;
                if next > 255 {
                    proof {
                        assert(hex_digit_value(b@[k as int]) == Some(d as nat));
                        assert(hex_digits_value(b@.subrange(i as int, k + 1)) == Some(next as nat));
                        if hex_digits_value(digits) is Some {
                            lemma_hex_prefix_monotone(digits, k + 1 - i);
                            assert(hex_digits_value(digits)->0 > 255);
                        }
                        assert(hex_field(p) is None);
                    }
                    return None;
                }
                acc = next;
            },
        }
        k = k + 1;
    }
    assert(b@.subrange(i as int, k as int) =~= digits);
    Some(acc as u8)
}

/// Parses a MAC address written as six colon-separated hexadecimal
/// fields, such as "00:11:22:33:44:55".
pub fn parse_mac_address(mac_str: &str) -> (r: Result<[u8; 6], DataLinkError>)
    ensures
        match mac_parse(mac_str.spec_bytes()) {
            Some(m) => r matches Ok(a) && a@ == m,
            None => r matches Err(DataLinkError::AddressError(_)),
        },
{
    let b = mac_str.as_bytes();
    let mut starts: Vec<usize> = Vec::new();
    let mut ends: Vec<usize> = Vec::new();
    let mut start: usize = 0;
    let mut i: usize = 0;
    while i < b.len()
        invariant
            i <= b@.len(),
            start <= i,
            starts@.len() == ends@.len(),
            colon_fields(b@.subrange(0, i as int)).len() == starts@.len() + 1,
            forall|k: int| 0 <= k < starts@.len() ==> starts@[k] <= #[trigger] ends@[k] && ends@[k] <= i,
            forall|k: int| 0 <= k < starts@.len() ==> #[trigger] colon_fields(b@.subrange(0, i as int))[k] == b@.subrange(
                starts@[k] as int, ends@[k] as int),
            colon_fields(b@.subrange(0, i as int)).last() == b@.subrange(start as int, i as int),
        decreases b@.len() - i,
    {
        assert(b@.subrange(0, i + 1).drop_last() =~= b@.subrange(0, i as int));
        let ghost f = colon_fields(b@.subrange(0, i as int));
        let ghost g = colon_fields(b@.subrange(0, i + 1));
        assert(b@.subrange(0, i + 1).last() == b@[i as int]);
        proof {
            lemma_colon_fields_len(b@.subrange(0, i as int));
        }
        if b[i] == 0x3A {
            let ghost old_start = start;
            let ghost os = starts@;
            let ghost oe = ends@;
            starts.push(start);
            ends.push(i);
            assert forall|k: int| 0 <= k < starts@.len() implies starts@[k] <= #[trigger] ends@[k] && ends@[k] <= i + 1 by {
                if k < os.len() {
                    assert(starts@[k] == os[k] && ends@[k] == oe[k]);
                }
            }
            start = i + 1;
            assert(b@.subrange(start as int, i + 1) =~= Seq::<u8>::empty());
            assert(g == f.push(seq![]));
            assert forall|k: int| 0 <= k < starts@.len() implies #[trigger] g[k] == b@.subrange(starts@[k] as int, ends@[k] as int) by {
                if k < starts@.len() - 1 {
                    assert(g[k] == f[k]);
                } else {
                    assert(g[k] == f.last());
                }
            }
        } else {
            assert(b@.subrange(start as int, i + 1) =~= b@.subrange(start as int, i as int).push(b@[i as int]));
            assert(g == f.update(f.len() - 1, f.last().push(b@[i as int])));
            assert forall|k: int| 0 <= k < starts@.len() implies #[trigger] g[k] == b@.subrange(starts@[k] as int, ends@[k] as int) by {
                assert(g[k] == f[k]);
            }
        }
        i = i + 1;
    }
    assert(b@.subrange(0, i as int) =~= b@);
    starts.push(start);
    ends.push(i);
    let ghost fields = colon_fields(b@);
    assert forall|k: int| 0 <= k < starts@.len() implies #[trigger] fields[k] == b@.subrange(starts@[k] as int, ends@[k] as int)
        && starts@[k] <= ends@[k] <= b@.len() by {
        if k == starts@.len() - 1 {
            assert(fields[k] == fields.last());
        }
    }
    if starts.len() != 6 {
        return Err(DataLinkError::AddressError("Invalid MAC address format".to_string()));
    }
    let mut mac: [u8; 6] = [0u8; 6];
    let mut k: usize = 0;
    while k < 6
        invariant
            k <= 6,
            starts@.len() == 6,
            ends@.len() == 6,
            fields == colon_fields(b@),
            b@ == mac_str.spec_bytes(),
            fields.len() == 6,
            forall|j: int| 0 <= j < 6 ==> #[trigger] fields[j] == b@.subrange(starts@[j] as int, ends@[j] as int),
            forall|j: int| 0 <= j < 6 ==> starts@[j] <= #[trigger] ends@[j] && ends@[j] <= b@.len(),
            forall|j: int| 0 <= j < k ==> (#[trigger] hex_field(fields[j])) == Some(mac@[j]),
        decreases 6 - k,
    {
        assert(fields[k as int] == b@.subrange(starts@[k as int] as int, ends@[k as int] as int));
        match parse_field(b, starts[k], ends[k]) {
            Some(v) => {
                mac.set(k, v);
            },
            None => {
                assert(hex_field(fields[k as int]) is None);
                return Err(DataLinkError::AddressError("Invalid MAC address hex".to_string()));
            },
        }
        k = k + 1;
    }
    assert(mac@ =~= Seq::new(6, |j: int| hex_field(fields[j])->0));
    Ok(mac)
}

/// The uppercase hexadecimal digit of a nibble.
pub open spec fn hex_char(n: nat) -> char {
    if n < 10 {
        ((48 + n) as u32) as char
    } else {
        ((55 + n) as u32) as char
    }
}

/// The text of a MAC address: two uppercase hexadecimal digits per octet,
/// separated by colons.
pub open spec fn mac_text(mac: Seq<u8>) -> Seq<char> {
    Seq::new(17, |i: int| if i % 3 == 2 {
        ':'
    } else if i % 3 == 0 {
        hex_char((mac[i / 3] / 16) as nat)
    } else {
        hex_char((mac[i / 3] % 16) as nat)
    })
}

/// The uppercase hexadecimal digit of a nibble.
pub fn hex_digit_char(n: u8) -> (r: char)
    requires
        n < 16,
    ensures
        r == hex_char(n as nat),
{
    if n < 10 {
        (48 + n) as char
    } else {
        (55 + n) as char
    }
}

/// Formats a MAC address as "XX:XX:XX:XX:XX:XX" in uppercase.
pub fn format_mac_address(mac: &[u8; 6]) -> (r: String)
    ensures
        r@ == mac_text(mac@),
{
    let mut chars: Vec<char> = Vec::new();
    let mut k: usize = 0;
    while k < 6
        invariant
            k <= 6,
            chars@.len() == (if k == 0 { 0 } else { 3 * k - 1 }),
            forall|i: int| 0 <= i < chars@.len() ==> chars@[i] == mac_text(mac@)[i],
        decreases 6 - k,
    {
        if k > 0 {
            chars.push(':');
        }
        chars.push(hex_digit_char(mac[k] / 16));
        chars.push(hex_digit_char(mac[k] % 16));
        proof {
            assert forall|i: int| 0 <= i < chars@.len() implies chars@[i] == mac_text(mac@)[i] by {
                if i >= 3 * k - 1 || (k == 0 && i >= 0) {
                    if k == 0 {
                        assert(i / 3 == 0);
                    } else {
                        assert(i == 3 * k - 1 || i == 3 * k || i == 3 * k + 1);
                        assert((3 * k - 1) % 3 == 2 && (3 * k) % 3 == 0 && (3 * k + 1) % 3 == 1);
                        assert((3 * k) / 3 == k && (3 * k + 1) / 3 == k);
                    }
                }
            }
        }
        k = k + 1;
    }
    assert(chars@ =~= mac_text(mac@));
    crate::encoding::character_string::string_from_chars(chars.as_slice())
}

/// Checks the headers and size of a BACnet/Ethernet frame: at least 17
/// and at most 1514 octets, Ethernet type 0x82DC, LLC header 82 82 03.
pub fn validate_ethernet_frame(data: &[u8]) -> (r: Result<(), DataLinkError>)
    ensures
        (17 <= data@.len() <= 1514 && (data@[12] as int) * 256 + (data@[13] as int) == 0x82DC && data@[14] == 0x82
            && data@[15] == 0x82 && data@[16] == 0x03) ==> r is Ok,
        !(17 <= data@.len() <= 1514 && (data@[12] as int) * 256 + (data@[13] as int) == 0x82DC && data@[14] == 0x82
            && data@[15] == 0x82 && data@[16] == 0x03) ==> r matches Err(DataLinkError::InvalidFrame),
{
    if data.len() < BACNET_ETHERNET_HEADER_SIZE {
        return Err(DataLinkError::InvalidFrame);
    }
    if data.len() > MAX_ETHERNET_FRAME_SIZE {
        return Err(DataLinkError::InvalidFrame);
    }
    let ether_type: u16 = (data[12] as u16) * 256 + (data[13] as u16);
    if ether_type != BACNET_ETHERNET_TYPE {
        return Err(DataLinkError::InvalidFrame);
    }
    if !(data[14] == 0x82 && data[15] == 0x82 && data[16] == 0x03) {
        return Err(DataLinkError::InvalidFrame);
    }
    Ok(())
}


/// The octets to put on the wire for a frame: its encoding, or
/// `InvalidFrame` when that is longer than 1514 octets.
pub fn transmittable_frame(frame: &EthernetFrame) -> (r: Result<Vec<u8>, DataLinkError>)
    ensures
        ethernet_bytes(frame@).len() > MAX_ETHERNET_FRAME_SIZE ==> r matches Err(DataLinkError::InvalidFrame),
        ethernet_bytes(frame@).len() <= MAX_ETHERNET_FRAME_SIZE ==> (r matches Ok(v) && v@ == ethernet_bytes(frame@)),
{
    let encoded = frame.encode();
    if encoded.len() > MAX_ETHERNET_FRAME_SIZE {
        return Err(DataLinkError::InvalidFrame);
    }
    Ok(encoded)
}

/// The two text octets of an octet's uppercase hexadecimal digits.
pub open spec fn mac_field_bytes(m: u8) -> Seq<u8> {
    seq![hex_char((m / 16) as nat) as u8, hex_char((m % 16) as nat) as u8]
}

/// An uppercase hexadecimal digit is an ASCII octet, neither a colon nor a
/// plus sign, that reads back as its value.
proof fn lemma_hex_char_byte(n: nat)
    requires
        n < 16,
    ensures
        '\0' <= hex_char(n) <= '\u{7f}',
        hex_char(n) as u8 != 0x3A,
        hex_char(n) as u8 != 0x2B,
        hex_digit_value(hex_char(n) as u8) == Some(n),
{
    let c = hex_char(n);
    if n < 10 {
        vstd::utf8::char_u32_cast(c, (48 + n) as u32);
        assert(c as u32 == 48 + n);
    } else {
        vstd::utf8::char_u32_cast(c, (55 + n) as u32);
        assert(c as u32 == 55 + n);
    }
    assert(c as u8 == c as u32);
}

/// Octets with no colon among them add to the last field.
proof fn lemma_colon_fields_plain(x: Seq<u8>, p: Seq<u8>)
    requires
        forall|i: int| 0 <= i < p.len() ==> p[i] != 0x3A,
    ensures
        colon_fields(x + p) == colon_fields(x).update(colon_fields(x).len() - 1, colon_fields(x).last() + p),
    decreases p.len(),
{
    lemma_colon_fields_len(x);
    let f = colon_fields(x);
    if p.len() == 0 {
        assert(x + p =~= x);
        assert(f.last() + p =~= f.last());
        assert(f.update(f.len() - 1, f.last() + p) =~= f);
    } else {
        let q = p.drop_last();
        lemma_colon_fields_plain(x, q);
        assert((x + p).drop_last() =~= x + q);
        assert((x + p).last() == p.last());
        let g = colon_fields(x + q);
        assert(g.last() == f.last() + q);
        assert((f.last() + q).push(p.last()) =~= f.last() + p);
        assert(g.update(g.len() - 1, g.last().push(p.last())) =~= f.update(f.len() - 1, f.last() + p));
    }
}

/// The first `k` fields of the text octets of a MAC address are the digit
/// pairs of its first `k` octets.
proof fn lemma_mac_text_fields(mac: Seq<u8>, k: int)
    requires
        mac.len() == 6,
        1 <= k <= 6,
    ensures
        colon_fields(encode_utf8(mac_text(mac)).subrange(0, 3 * k - 1)) == Seq::new(k as nat, |i: int| mac_field_bytes(mac[i])),
    decreases k,
{
    let t = mac_text(mac);
    let b = encode_utf8(t);
    assert(vstd::utf8::is_ascii_chars(t)) by {
        assert forall|i: int| 0 <= i < t.len() implies '\0' <= #[trigger] t[i] <= '\u{7f}' by {
            lemma_hex_char_byte((mac[i / 3] / 16) as nat);
            lemma_hex_char_byte((mac[i / 3] % 16) as nat);
        }
    }
    vstd::utf8::is_ascii_chars_encode_utf8(t);
    let j = 3 * k - 3;
    assert(b[j] == t[j] as u8 && b[j + 1] == t[j + 1] as u8);
    assert(j % 3 == 0 && (j + 1) % 3 == 1 && j / 3 == k - 1 && (j + 1) / 3 == k - 1);
    let pair = mac_field_bytes(mac[k - 1]);
    assert(b.subrange(j, j + 2) =~= pair);
    lemma_hex_char_byte((mac[k - 1] / 16) as nat);
    lemma_hex_char_byte((mac[k - 1] % 16) as nat);
    let want = Seq::new(k as nat, |i: int| mac_field_bytes(mac[i]));
    if k == 1 {
        lemma_colon_fields_plain(Seq::<u8>::empty(), pair);
        assert(Seq::<u8>::empty() + pair =~= b.subrange(0, 2));
        assert(colon_fields(Seq::<u8>::empty()) =~= seq![Seq::<u8>::empty()]);
        assert(Seq::<u8>::empty() + pair =~= pair);
        assert(colon_fields(b.subrange(0, 2)) =~= want);
    } else {
        lemma_mac_text_fields(mac, k - 1);
        let x = b.subrange(0, 3 * k - 4);
        assert(b[3 * k - 4] == t[3 * k - 4] as u8);
        assert((3 * k - 4) % 3 == 2);
        assert(t[3 * k - 4] == ':');
        let xc = x.push(0x3A);
        assert(xc.drop_last() =~= x);
        assert(colon_fields(xc) == colon_fields(x).push(seq![]));
        lemma_colon_fields_plain(xc, pair);
        assert(xc + pair =~= b.subrange(0, 3 * k - 1));
        let prev = Seq::new((k - 1) as nat, |i: int| mac_field_bytes(mac[i]));
        assert(prev.push(seq![]).update(k - 1, Seq::<u8>::empty() + pair) =~= want) by {
            assert(Seq::<u8>::empty() + pair =~= pair);
        }
    }
}

/// A field of two uppercase digits reads back as the octet they stand for.
proof fn lemma_mac_field_value(m: u8)
    ensures
        hex_field(mac_field_bytes(m)) == Some(m),
{
    let p = mac_field_bytes(m);
    lemma_hex_char_byte((m / 16) as nat);
    lemma_hex_char_byte((m % 16) as nat);
    let h = p.drop_last();
    assert(h.drop_last() =~= Seq::<u8>::empty());
    assert(hex_digits_value(h.drop_last()) == Some(0nat));
    assert(h.last() == p[0] && p.last() == p[1]);
    assert(hex_digit_value(h.last()) == Some((m / 16) as nat));
    assert(hex_digits_value(h) == Some((0 * 16 + m / 16) as nat));
    assert(hex_digits_value(h) == Some((m / 16) as nat));
    assert(hex_digits_value(p) == Some(((m / 16) * 16 + m % 16) as nat));
}

/// The text that `format_mac_address` writes for a MAC address reads back,
/// through `parse_mac_address`, as that address.
pub proof fn lemma_mac_text_round_trip(mac: Seq<u8>)
    requires
        mac.len() == 6,
    ensures
        mac_parse(encode_utf8(mac_text(mac))) == Some(mac),
{
    let b = encode_utf8(mac_text(mac));
    lemma_mac_text_fields(mac, 6);
    vstd::utf8::is_ascii_chars_encode_utf8(mac_text(mac));
    assert(b.subrange(0, 17) =~= b);
    let f = colon_fields(b);
    assert forall|i: int| 0 <= i < 6 implies #[trigger] hex_field(f[i]) == Some(mac[i]) by {
        lemma_mac_field_value(mac[i]);
    }
    assert(Seq::new(6, |i: int| hex_field(f[i])->0) =~= mac);
}

} // verus!
