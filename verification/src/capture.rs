//! Turning one captured frame into a `Packet`: the Ethernet/IP headers are
//! decoded by `etherparse`, the payload is escaped by `stfu8`, the rest is
//! computed here.

use crate::datetime::{chrono_timestamp_valid, timestamp_is_valid, Timestamp};
use crate::model::{Packet, PacketHeader, PacketView};
use crate::text::{ipv4_text, ipv6_text, mac_text, to_ip4addr_string, to_ip6addr_string, to_macaddr_string};
use vstd::prelude::*;

verus! {

/// An Ethernet II header.
#[derive(Clone, Copy, Debug, PartialEq, Eq)]
pub struct LinkHeader {
    pub destination: [u8; 6],
    pub source: [u8; 6],
    pub ether_type: u16,
}

/// The addresses of an IP header.
#[derive(Clone, Copy, Debug, PartialEq, Eq)]
pub enum IpAddresses {
    V4 { source: [u8; 4], destination: [u8; 4] },
    V6 { source: [u8; 16], destination: [u8; 16] },
}

/// What the header decoder found in a frame, and the bytes after the headers.
#[derive(Clone, Debug)]
pub struct DecodedFrame {
    pub link: Option<LinkHeader>,
    pub ip: Option<IpAddresses>,
    pub payload: Vec<u8>,
}

/// A decoded frame with its payload as a sequence.
pub struct DecodedFrameView {
    pub link: Option<LinkHeader>,
    pub ip: Option<IpAddresses>,
    pub payload: Seq<u8>,
}

impl View for DecodedFrame {
    type V = DecodedFrameView;

    open spec fn view(&self) -> DecodedFrameView {
        DecodedFrameView { link: self.link, ip: self.ip, payload: self.payload@ }
    }
}

#[verifier::external_type_specification]
#[verifier::external_body]
pub struct ExEtherparseReadError(etherparse::ReadError);

/// What `etherparse::PacketHeaders::from_ethernet_slice` decodes from a frame.
pub uninterp spec fn etherparse_decode(frame: Seq<u8>) -> Option<DecodedFrameView>;

/// What `stfu8::encode_u8` makes of a byte string.
pub uninterp spec fn stfu8_encoding(bytes: Seq<u8>) -> Seq<char>;

/// The big-endian ether type in bytes 12 and 13 of a frame.
pub open spec fn frame_ether_type(frame: Seq<u8>) -> int {
    frame[12] * 256 + frame[13]
}

/// Ether types after which the decoder reads further headers (IPv4, IPv6 and
/// the three VLAN tags).
pub open spec fn decoded_past_link(ether_type: int) -> bool {
    ether_type == 0x0800 || ether_type == 0x86dd || ether_type == 0x8100 || ether_type == 0x88a8
        || ether_type == 0x9100
}

/// The Ethernet header is the frame's first 14 bytes.
pub open spec fn link_read_from(link: Option<LinkHeader>, frame: Seq<u8>) -> bool {
    match link {
        Some(l) => l.destination@ == frame.subrange(0, 6) && l.source@ == frame.subrange(6, 12)
            && l.ether_type == frame_ether_type(frame),
        None => false,
    }
}

/// IPv4 addresses read from an IPv4 header that follows the Ethernet header.
pub open spec fn ipv4_read_from(ip: Option<IpAddresses>, frame: Seq<u8>) -> bool {
    match ip {
        Some(IpAddresses::V4 { source, destination }) => source@ == frame.subrange(26, 30)
            && destination@ == frame.subrange(30, 34),
        _ => false,
    }
}

/// IPv6 addresses read from an IPv6 header that follows the Ethernet header.
pub open spec fn ipv6_read_from(ip: Option<IpAddresses>, frame: Seq<u8>) -> bool {
    match ip {
        Some(IpAddresses::V6 { source, destination }) => source@ == frame.subrange(22, 38)
            && destination@ == frame.subrange(38, 54),
        _ => false,
    }
}

/// Decodes a frame with `etherparse::PacketHeaders::from_ethernet_slice` and
/// copies out the Ethernet header, the IP addresses and the payload (VLAN and
/// transport headers are skipped over, not kept). Claimed from the crate's
/// source: frames under 14 bytes are refused; the Ethernet header is the first
/// 14 bytes (destination, source, big-endian ether type); an IPv4 or IPv6
/// ether type yields addresses of that version taken from the IP header that
/// follows; any other ether type that is not a VLAN tag ends decoding, with
/// the payload the bytes after the first 14.
#[verifier::external_body]
fn decode_ethernet(frame: &[u8]) -> (r: Result<DecodedFrame, etherparse::ReadError>)
    ensures
        r is Ok <==> etherparse_decode(frame@) is Some,
        r matches Ok(f) ==> etherparse_decode(frame@) == Some(f@),
        r is Ok ==> frame@.len() >= 14,
        r matches Ok(f) ==> link_read_from(f.link, frame@),
        r matches Ok(f) ==> (frame_ether_type(frame@) == 0x0800 ==> ipv4_read_from(f.ip, frame@)),
        r matches Ok(f) ==> (frame_ether_type(frame@) == 0x86dd ==> ipv6_read_from(f.ip, frame@)),
        r matches Ok(f) ==> (!decoded_past_link(frame_ether_type(frame@)) ==> f.ip is None
            && f.payload@ == frame@.subrange(14, frame@.len() as int)),
        r is Err ==> frame@.len() < 14 || decoded_past_link(frame_ether_type(frame@)),
{
    let h = etherparse::PacketHeaders::from_ethernet_slice(frame)?;
    let link = h.link.map(
        |e| LinkHeader { destination: e.destination, source: e.source, ether_type: e.ether_type },
    );
    let ip = h.ip.map(|ip| match ip {
        etherparse::IpHeader::Version4(v) => IpAddresses::V4 { source: v.source, destination: v.destination },
        etherparse::IpHeader::Version6(v) => IpAddresses::V6 { source: v.source, destination: v.destination },
    });
    Ok(DecodedFrame { link, ip, payload: h.payload.to_vec() })
}

/// Bytes that are visible ASCII other than the backslash.
pub open spec fn plain_ascii(bytes: Seq<u8>) -> bool {
    forall|i: int| 0 <= i < bytes.len() ==> 0x20 <= #[trigger] bytes[i] <= 0x7e && bytes[i] != 0x5c
}

/// Escapes bytes as text with `stfu8::encode_u8`. Claimed from the crate's
/// source: visible ASCII other than the backslash is copied as it is.
#[verifier::external_body]
fn encode_payload(bytes: &[u8]) -> (r: String)
    ensures
        r@ == stfu8_encoding(bytes@),
        plain_ascii(bytes@) ==> r@ == bytes@.map_values(|b: u8| b as char),
{
    stfu8::encode_u8(bytes)
}

/// The protocol name for an ether type: IPv4, ARP or IPv6.
pub open spec fn ether_type_text(ether_type: u16) -> Option<Seq<char>> {
    if ether_type == 2048 {
        Some("IPv4"@)
    } else if ether_type == 2054 {
        Some("ARP"@)
    } else if ether_type == 34525 {
        Some("IPv6"@)
    } else {
        None
    }
}

/// The protocol name for an ether type, if it is IPv4, ARP or IPv6.
pub fn ether_type_name(ether_type: u16) -> (r: Option<String>)
    ensures
        match r {
            Some(s) => ether_type_text(ether_type) == Some(s@),
            None => ether_type_text(ether_type) is None,
        },
{
    if ether_type == 2048 {
        Some("IPv4".to_string())
    } else if ether_type == 2054 {
        Some("ARP".to_string())
    } else if ether_type == 34525 {
        Some("IPv6".to_string())
    } else {
        None
    }
}

/// The text of an IP header's destination address.
pub open spec fn ip_destination_text(ip: IpAddresses) -> Seq<char> {
    match ip {
        IpAddresses::V4 { destination, .. } => ipv4_text(destination@),
        IpAddresses::V6 { destination, .. } => ipv6_text(destination@),
    }
}

/// The text of an IP header's source address.
pub open spec fn ip_source_text(ip: IpAddresses) -> Seq<char> {
    match ip {
        IpAddresses::V4 { source, .. } => ipv4_text(source@),
        IpAddresses::V6 { source, .. } => ipv6_text(source@),
    }
}

/// The packet made of a capture header, a decoded frame and the payload's text.
pub open spec fn packet_of(header: PacketHeader, frame: DecodedFrameView, payload_text: Seq<char>) -> PacketView {
    PacketView {
        header,
        mac_dst: match frame.link {
            Some(l) => Some(mac_text(l.destination@)),
            None => None,
        },
        mac_src: match frame.link {
            Some(l) => Some(mac_text(l.source@)),
            None => None,
        },
        ip_type: match frame.link {
            Some(l) => ether_type_text(l.ether_type),
            None => None,
        },
        payload: payload_text,
        ip_dst: match frame.ip {
            Some(ip) => Some(ip_destination_text(ip)),
            None => None,
        },
        ip_src: match frame.ip {
            Some(ip) => Some(ip_source_text(ip)),
            None => None,
        },
    }
}

fn destination_text(ip: &IpAddresses) -> (r: String)
    ensures
        r@ == ip_destination_text(*ip),
{
    match ip {
        IpAddresses::V4 { destination, .. } => to_ip4addr_string(*destination),
        IpAddresses::V6 { destination, .. } => to_ip6addr_string(*destination),
    }
}

fn source_text(ip: &IpAddresses) -> (r: String)
    ensures
        r@ == ip_source_text(*ip),
{
    match ip {
        IpAddresses::V4 { source, .. } => to_ip4addr_string(*source),
        IpAddresses::V6 { source, .. } => to_ip6addr_string(*source),
    }
}

/// Builds the packet for a capture header and a decoded frame whose payload
/// has already been escaped to `payload_text`.
pub fn assemble_packet(header: PacketHeader, frame: &DecodedFrame, payload_text: String) -> (r: Packet)
    ensures
        r@ == packet_of(header, frame@, payload_text@),
{
    let (mac_dst, mac_src, ip_type) = match &frame.link {
        Some(l) => (Some(to_macaddr_string(l.destination)), Some(to_macaddr_string(l.source)), ether_type_name(l.ether_type)),
        None => (None, None, None),
    };
    let (ip_dst, ip_src) = match &frame.ip {
        Some(ip) => (Some(destination_text(ip)), Some(source_text(ip))),
        None => (None, None),
    };
    Packet { header, mac_dst, mac_src, ip_type, payload: payload_text, ip_dst, ip_src }
}

/// Why a captured frame was not turned into a packet.
#[derive(Clone, Copy, Debug, PartialEq, Eq, Structural)]
pub enum CaptureError {
    /// `chrono` rejects the capture time.
    InvalidTimestamp,
}

/// The capture header for a capture time in seconds and microseconds (the
/// microseconds are taken, truncated to 32 bits, as the nanosecond part).
pub open spec fn capture_header(ts_sec: i64, ts_usec: i64, caplen: u32, len: u32) -> PacketHeader {
    PacketHeader { ts: Timestamp { secs: ts_sec, nanos: ts_usec as u32 }, caplen, len }
}

/// Turns one captured frame into a packet. An invalid capture time is an
/// error; a frame that the decoder refuses gives no packet.
pub fn process_packet(ts_sec: i64, ts_usec: i64, caplen: u32, len: u32, data: &[u8]) -> (r: Result<Option<Packet>, CaptureError>)
    ensures
        r is Err <==> !chrono_timestamp_valid(ts_sec, ts_usec as u32),
        r matches Ok(o) ==> (o is Some <==> etherparse_decode(data@) is Some),
        r matches Ok(Some(p)) ==> p@ == packet_of(
            capture_header(ts_sec, ts_usec, caplen, len),
            etherparse_decode(data@).unwrap(),
            stfu8_encoding(etherparse_decode(data@).unwrap().payload),
        ),
        data@.len() < 14 ==> !(r matches Ok(Some(_))),
        r matches Ok(Some(p)) ==> p@.mac_dst == Some(mac_text(data@.subrange(0, 6))) && p@.mac_src
            == Some(mac_text(data@.subrange(6, 12))),
        r matches Ok(Some(p)) ==> p@.header == capture_header(ts_sec, ts_usec, caplen, len),
        r matches Ok(Some(p)) ==> p@.ip_type == ether_type_text((data@[12] * 256 + data@[13]) as u16),
        r matches Ok(Some(p)) ==> (frame_ether_type(data@) == 0x0800 ==> p@.ip_dst == Some(
            ipv4_text(data@.subrange(30, 34)),
        ) && p@.ip_src == Some(ipv4_text(data@.subrange(26, 30)))),
        r matches Ok(Some(p)) ==> (frame_ether_type(data@) == 0x86dd ==> p@.ip_dst == Some(
            ipv6_text(data@.subrange(38, 54)),
        ) && p@.ip_src == Some(ipv6_text(data@.subrange(22, 38)))),
        chrono_timestamp_valid(ts_sec, ts_usec as u32) && data@.len() >= 14 && !decoded_past_link(
            frame_ether_type(data@),
        ) ==> (r matches Ok(Some(p)) && p@.ip_dst is None && p@.ip_src is None && p@.payload
            == stfu8_encoding(data@.subrange(14, data@.len() as int))),
{
    let nanos = ts_usec as u32;
    if !timestamp_is_valid(ts_sec, nanos) {
        return Err(CaptureError::InvalidTimestamp);
    }
    let header = PacketHeader { ts: Timestamp { secs: ts_sec, nanos }, caplen, len };
    match decode_ethernet(data) {
        Ok(frame) => {
            let payload_text = encode_payload(frame.payload.as_slice());
            Ok(Some(assemble_packet(header, &frame, payload_text)))
        },
        Err(_) => Ok(None),
    }
}

/// A packet shows the decoded IP header's destination address as `ip_dst` and
/// its source address as `ip_src`, each written in the text of its version;
/// a frame without an IP header gives neither.
pub proof fn law_packet_ip_addresses(header: PacketHeader, frame: DecodedFrameView, payload_text: Seq<char>)
    ensures
        frame.ip matches Some(IpAddresses::V4 { source, destination }) ==> packet_of(
            header,
            frame,
            payload_text,
        ).ip_dst == Some(ipv4_text(destination@)) && packet_of(header, frame, payload_text).ip_src
            == Some(ipv4_text(source@)),
        frame.ip matches Some(IpAddresses::V6 { source, destination }) ==> packet_of(
            header,
            frame,
            payload_text,
        ).ip_dst == Some(ipv6_text(destination@)) && packet_of(header, frame, payload_text).ip_src
            == Some(ipv6_text(source@)),
        frame.ip is None ==> packet_of(header, frame, payload_text).ip_dst is None && packet_of(
            header,
            frame,
            payload_text,
        ).ip_src is None,
{
}

} // verus!
