//! The IPv6/UDP datagrams that carry video frames through the tunnel.
//!
//! Each frame travels in one UDP datagram from the host's tunnel address to
//! the device's, with the application port as both source and destination
//! port. The UDP payload is one message-type byte followed by the frame.
use vstd::prelude::*;
use crate::wire::{
    IP_PROTOCOL_UDP, IPV6_HEADER_LEN, UDP_HEADER_LEN, Ipv6Fields, UdpFields, ipv6_header_bytes,
    udp_header_bytes, udp_ipv6_checksum, udp_ipv6_check_sum, lemma_checksum_verifies,
    ipv6_header_to_bytes, udp_header_to_bytes, udp_checksum_ipv6_raw,
};

verus! {

/// Hop limit of every datagram sent through the tunnel.
pub const DEFAULT_HOP_LIMIT: u8 = 64;

/// Largest number of frame bytes that fit in one datagram: the UDP length
/// field counts the 8-byte UDP header and the message-type byte too.
pub const MAX_FRAME_PAYLOAD: usize = 65526;

/// Kind of message carried in the first byte of the UDP payload.
#[derive(Clone, Copy, Debug, PartialEq, Eq)]
pub enum MessageType {
    Video,
}

/// The byte that stands for a message type on the wire.
pub open spec fn message_code(m: MessageType) -> u8 {
    match m {
        MessageType::Video => 0,
    }
}

impl MessageType {
    /// The byte that stands for this message type on the wire.
    pub fn code(self) -> (r: u8)
        ensures
            r == message_code(self),
    {
        match self {
            MessageType::Video => 0,
        }
    }
}

/// The two ends of the tunnel and the application's UDP port.
#[derive(Clone, Copy, Debug, PartialEq, Eq)]
pub struct TunnelEndpoints {
    /// Address the tunnel assigned to this host.
    pub local: [u8; 16],
    /// Address of the device.
    pub remote: [u8; 16],
    /// UDP port of the application on the device, used on both ends.
    pub app_port: u16,
}

/// Whether a frame of `payload_len` bytes fits in one datagram.
pub open spec fn frame_fits(payload_len: nat) -> bool {
    payload_len + 1 + 8 <= 65535
}

/// Value of the UDP length field (and of the IPv6 payload length field) for
/// a frame of `payload_len` bytes.
pub open spec fn frame_udp_length(payload_len: nat) -> u16 {
    (8 + 1 + payload_len) as u16
}

/// The UDP payload of a frame: the message-type byte, then the frame.
pub open spec fn frame_udp_payload(code: u8, payload: Seq<u8>) -> Seq<u8> {
    seq![code] + payload
}

/// The IPv6 header fields of a frame datagram.
pub open spec fn frame_ipv6_fields(ep: TunnelEndpoints, payload_len: nat) -> Ipv6Fields {
    Ipv6Fields {
        traffic_class: 0,
        flow_label: 0,
        payload_length: frame_udp_length(payload_len),
        next_header: IP_PROTOCOL_UDP,
        hop_limit: DEFAULT_HOP_LIMIT,
        source: ep.local,
        destination: ep.remote,
    }
}

/// The UDP checksum of a frame datagram.
pub open spec fn frame_checksum(ep: TunnelEndpoints, code: u8, payload: Seq<u8>) -> u16 {
    udp_ipv6_checksum(
        ep.local@,
        ep.remote@,
        ep.app_port,
        ep.app_port,
        frame_udp_length(payload.len()),
        frame_udp_payload(code, payload),
    )
}

/// The UDP header fields of a frame datagram.
pub open spec fn frame_udp_fields(ep: TunnelEndpoints, code: u8, payload: Seq<u8>) -> UdpFields {
    UdpFields {
        source_port: ep.app_port,
        destination_port: ep.app_port,
        length: frame_udp_length(payload.len()),
        checksum: frame_checksum(ep, code, payload),
    }
}

/// The 48 header bytes of a frame datagram: IPv6 header, then UDP header.
pub open spec fn frame_headers(ep: TunnelEndpoints, code: u8, payload: Seq<u8>) -> Seq<u8> {
    ipv6_header_bytes(frame_ipv6_fields(ep, payload.len())) + udp_header_bytes(
        frame_udp_fields(ep, code, payload),
    )
}

/// The whole datagram that carries a frame.
pub open spec fn frame_datagram(ep: TunnelEndpoints, code: u8, payload: Seq<u8>) -> Seq<u8> {
    frame_headers(ep, code, payload) + frame_udp_payload(code, payload)
}

/// A big-endian 16-bit value read at offset `i`.
pub open spec fn read_be16(d: Seq<u8>, i: int) -> u16 {
    (d[i] as nat * 256 + d[i + 1] as nat) as u16
}

/// The UDP header fields that a receiver reads from the first 8 bytes of `d`.
pub open spec fn read_udp_fields(d: Seq<u8>) -> UdpFields {
    UdpFields {
        source_port: read_be16(d, 0),
        destination_port: read_be16(d, 2),
        length: read_be16(d, 4),
        checksum: read_be16(d, 6),
    }
}

/// Appends the bytes of `s` to `v`.
fn append_bytes(v: &mut Vec<u8>, s: &[u8])
    ensures
        final(v)@ == old(v)@ + s@,
{
    let ghost start = v@;
    let n = s.len();
    let mut i: usize = 0;
    while i < n
        invariant
            n == s@.len(),
            i <= n,
            v@ == start + s@.subrange(0, i as int),
        decreases n - i,
    {
        v.push(s[i]);
        i = i + 1;
        assert(s@.subrange(0, i as int) =~= s@.subrange(0, (i - 1) as int).push(s@[i - 1]));
    }
    assert(s@.subrange(0, n as int) =~= s@);
}

/// The UDP payload of a frame, as a vector: the message-type byte, then the
/// frame.
pub fn frame_payload_bytes(msg: MessageType, payload: &[u8]) -> (r: Vec<u8>)
    ensures
        r@ == frame_udp_payload(message_code(msg), payload@),
{
    let mut data: Vec<u8> = Vec::new();
    data.push(msg.code());
    append_bytes(&mut data, payload);
    assert(data@ =~= frame_udp_payload(message_code(msg), payload@));
    data
}

/// The 48 header bytes (IPv6, then UDP with its checksum) of the datagram
/// that carries `payload` behind the message-type byte of `msg`; `None`
/// when the frame is too large for one datagram.
pub fn build_frame_headers(ep: &TunnelEndpoints, msg: MessageType, payload: &[u8]) -> (r: Option<Vec<u8>>)
    ensures
        r is Some <==> frame_fits(payload@.len()),
        r is Some <==> payload@.len() + 9 <= 65535,
        r matches Some(h) ==> h@ == frame_headers(*ep, message_code(msg), payload@),
        r matches Some(h) ==> h@.len() == 48 && h@.subrange(0, 4) == seq![0x60u8, 0u8, 0u8, 0u8],
{
    if payload.len() > MAX_FRAME_PAYLOAD {
        return None;
    }
    let udp_length: u16 = (payload.len() + 9) as u16;
    let data = frame_payload_bytes(msg, payload);
    let checksum = udp_checksum_ipv6_raw(
        ep.app_port,
        ep.app_port,
        udp_length,
        ep.local,
        ep.remote,
        data.as_slice(),
    ).unwrap();
    let ip = Ipv6Fields {
        traffic_class: 0,
        flow_label: 0,
        payload_length: udp_length,
        next_header: IP_PROTOCOL_UDP,
        hop_limit: DEFAULT_HOP_LIMIT,
        source: ep.local,
        destination: ep.remote,
    };
    let udp = UdpFields {
        source_port: ep.app_port,
        destination_port: ep.app_port,
        length: udp_length,
        checksum,
    };
    let ip_bytes = ipv6_header_to_bytes(&ip);
    let udp_bytes = udp_header_to_bytes(&udp);
    let mut headers: Vec<u8> = Vec::with_capacity(IPV6_HEADER_LEN + UDP_HEADER_LEN);
    append_bytes(&mut headers, ip_bytes.as_slice());
    append_bytes(&mut headers, udp_bytes.as_slice());
    assert(ip == frame_ipv6_fields(*ep, payload@.len()));
    assert(udp == frame_udp_fields(*ep, message_code(msg), payload@));
    assert(headers@ =~= frame_headers(*ep, message_code(msg), payload@));
    assert(headers@.subrange(0, 4) =~= seq![0x60u8, 0u8, 0u8, 0u8]);
    Some(headers)
}

/// The whole datagram (headers, message-type byte, frame) that carries
/// `payload`; `None` when the frame is too large for one datagram.
pub fn build_frame_datagram(ep: &TunnelEndpoints, msg: MessageType, payload: &[u8]) -> (r: Option<Vec<u8>>)
    ensures
        r is Some <==> frame_fits(payload@.len()),
        r is Some <==> payload@.len() + 9 <= 65535,
        r matches Some(d) ==> d@ == frame_datagram(*ep, message_code(msg), payload@),
        r matches Some(d) ==> d@.len() == payload@.len() + 49 && d@.subrange(0, 4) == seq![
            0x60u8,
            0u8,
            0u8,
            0u8,
        ],
{
    match build_frame_headers(ep, msg, payload) {
        None => None,
        Some(headers) => {
            let mut d = headers;
            d.push(msg.code());
            append_bytes(&mut d, payload);
            assert(d@ =~= frame_datagram(*ep, message_code(msg), payload@));
            assert(d@.subrange(0, 4) =~= headers@.subrange(0, 4));
            Some(d)
        },
    }
}

/// Law: a frame fits in one datagram exactly when its length plus the
/// message-type byte plus the 8-byte UDP header is at most 65535, the largest
/// UDP length; every smaller frame is sent, only a larger one is dropped.
pub proof fn lemma_frame_fits_exactly(payload_len: nat)
    ensures
        frame_fits(payload_len) <==> payload_len <= 65526,
        frame_fits(payload_len) <==> payload_len + 9 <= 65535,
{
}

/// Law: a receiver that reads back a frame datagram finds an IPv6 header of
/// version 6 with traffic class 0 and flow label 0, for UDP with hop limit 64 from the host to the device, whose
/// payload length covers the rest of the datagram; a UDP header from and to
/// the application port whose length covers the rest of the datagram; a UDP
/// payload that is the message-type byte followed by the frame; and a
/// checksum that passes its check.
pub proof fn lemma_frame_datagram_reads_back(ep: TunnelEndpoints, msg: MessageType, payload: Seq<u8>)
    requires
        payload.len() + 9 <= 65535,
    ensures
        ({
            let d = frame_datagram(ep, message_code(msg), payload);
            let udp = read_udp_fields(d.subrange(40, 48));
            &&& d.len() == 49 + payload.len()
            &&& d[0] / 16 == 6
            &&& d.subrange(0, 4) == seq![0x60u8, 0u8, 0u8, 0u8]
            &&& read_be16(d, 4) == d.len() - 40
            &&& d[6] == IP_PROTOCOL_UDP
            &&& d[7] == DEFAULT_HOP_LIMIT
            &&& d.subrange(8, 24) == ep.local@
            &&& d.subrange(24, 40) == ep.remote@
            &&& udp.source_port == ep.app_port
            &&& udp.destination_port == ep.app_port
            &&& udp.length == d.len() - 40
            &&& d.subrange(48, d.len() as int) == seq![message_code(msg)] + payload
            &&& udp_ipv6_check_sum(ep.local@, ep.remote@, udp, d.subrange(48, d.len() as int)) == 65535
        }),
{
    let code = message_code(msg);
    let d = frame_datagram(ep, code, payload);
    let ipf = frame_ipv6_fields(ep, payload.len());
    let udpf = frame_udp_fields(ep, code, payload);
    let ipb = ipv6_header_bytes(ipf);
    let udpb = udp_header_bytes(udpf);
    let data = frame_udp_payload(code, payload);
    assert(ipb.len() == 40);
    assert(udpb.len() == 8);
    assert(d =~= ipb + udpb + data);
    assert(d.subrange(40, 48) =~= udpb);
    assert(d.subrange(48, d.len() as int) =~= data);
    assert(d.subrange(8, 24) =~= ep.local@);
    assert(d.subrange(24, 40) =~= ep.remote@);
    assert(d.subrange(0, 4) =~= seq![0x60u8, 0u8, 0u8, 0u8]);
    let udp = read_udp_fields(d.subrange(40, 48));
    assert(udp == udpf);
    lemma_checksum_verifies(ep.local@, ep.remote@, ep.app_port, ep.app_port, frame_udp_length(payload.len()), data);
}

} // verus!
