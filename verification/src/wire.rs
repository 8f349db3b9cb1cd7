//! Byte layout of the IPv6 and UDP headers, and the UDP checksum.
//!
//! The headers are serialized by `etherparse`; the contracts of the three
//! trusted wrappers at the end of this file state the bytes that its source
//! produces, in terms of the spec functions defined here.
use vstd::prelude::*;

verus! {

/// IP protocol number of UDP.
pub const IP_PROTOCOL_UDP: u8 = 17;

/// Length in bytes of a fixed IPv6 header.
pub const IPV6_HEADER_LEN: usize = 40;

/// Length in bytes of a UDP header.
pub const UDP_HEADER_LEN: usize = 8;

/// Largest flow label that fits in the 20 bits of the IPv6 field.
pub const MAX_FLOW_LABEL: u32 = 0xF_FFFF;

/// The fields of a fixed IPv6 header, as plain values.
#[derive(Clone, Copy, Debug, PartialEq, Eq)]
pub struct Ipv6Fields {
    pub traffic_class: u8,
    pub flow_label: u32,
    pub payload_length: u16,
    pub next_header: u8,
    pub hop_limit: u8,
    pub source: [u8; 16],
    pub destination: [u8; 16],
}

/// The fields of a UDP header, as plain values.
#[derive(Clone, Copy, Debug, PartialEq, Eq)]
pub struct UdpFields {
    pub source_port: u16,
    pub destination_port: u16,
    pub length: u16,
    pub checksum: u16,
}

/// Big-endian encoding of a 16-bit value.
pub open spec fn be16(v: u16) -> Seq<u8> {
    seq![(v / 256) as u8, (v % 256) as u8]
}

/// The 40 bytes of an IPv6 header (RFC 8200, section 3).
pub open spec fn ipv6_header_bytes(h: Ipv6Fields) -> Seq<u8> {
    seq![
        (0x60 + h.traffic_class / 16) as u8,
        ((h.traffic_class % 16) * 16 + h.flow_label / 65536) as u8,
        ((h.flow_label / 256) % 256) as u8,
        (h.flow_label % 256) as u8,
    ] + be16(h.payload_length) + seq![h.next_header, h.hop_limit] + h.source@ + h.destination@
}

/// The 8 bytes of a UDP header (RFC 768).
pub open spec fn udp_header_bytes(u: UdpFields) -> Seq<u8> {
    be16(u.source_port) + be16(u.destination_port) + be16(u.length) + be16(u.checksum)
}

/// Sum of the big-endian 16-bit words of `b`; an odd last byte is padded
/// with a zero byte.
pub open spec fn word_sum(b: Seq<u8>) -> nat
    decreases b.len(),
{
    if b.len() == 0 {
        0
    } else if b.len() == 1 {
        (b[0] as nat) * 256
    } else {
        (b[0] as nat) * 256 + (b[1] as nat) + word_sum(b.subrange(2, b.len() as int))
    }
}

/// A sum folded into 16 bits with end-around carry: 0 stays 0, any other
/// value becomes the representative in `1..=0xFFFF` of its class modulo 0xFFFF.
pub open spec fn fold16(n: nat) -> nat {
    if n == 0 {
        0
    } else {
        ((n - 1) % 65535 + 1) as nat
    }
}

/// The ones' complement of a folded sum, where the value 0 is sent as 0xFFFF
/// (RFC 768: an all-zero checksum means that none was computed).
pub open spec fn ones_complement_no_zero(total: nat) -> u16 {
    let c = 65535 - fold16(total);
    if c == 0 {
        0xFFFFu16
    } else {
        c as u16
    }
}

/// The IPv6 pseudo header that the UDP checksum covers (RFC 8200, section 8.1).
pub open spec fn ipv6_pseudo_header(source: Seq<u8>, destination: Seq<u8>, udp_length: u16) -> Seq<u8> {
    source + destination + seq![0u8, 0u8] + be16(udp_length) + seq![0u8, 0u8, 0u8, IP_PROTOCOL_UDP]
}

/// The UDP checksum over IPv6 of a datagram with the given header fields and
/// payload; the checksum field itself counts as zero.
pub open spec fn udp_ipv6_checksum(
    source: Seq<u8>,
    destination: Seq<u8>,
    source_port: u16,
    destination_port: u16,
    udp_length: u16,
    payload: Seq<u8>,
) -> u16 {
    ones_complement_no_zero(
        word_sum(
            ipv6_pseudo_header(source, destination, udp_length) + udp_header_bytes(
                UdpFields { source_port, destination_port, length: udp_length, checksum: 0 },
            ) + payload,
        ),
    )
}

/// What a receiver computes to check a UDP datagram over IPv6: the folded
/// sum over the pseudo header, the UDP header as received and the payload.
/// The datagram passes when this is 0xFFFF.
pub open spec fn udp_ipv6_check_sum(source: Seq<u8>, destination: Seq<u8>, udp: UdpFields, payload: Seq<u8>) -> nat {
    fold16(word_sum(ipv6_pseudo_header(source, destination, udp.length) + udp_header_bytes(udp) + payload))
}

/// Serializes an IPv6 header with `etherparse::Ipv6Header::to_bytes`.
/// Claimed of etherparse: the 40 bytes are those of `ipv6_header_bytes`
/// (version 6, traffic class, 20-bit flow label, payload length, next header,
/// hop limit, addresses; multi-byte fields big-endian).
#[verifier::external_body]
pub(crate) fn ipv6_header_to_bytes(h: &Ipv6Fields) -> (r: [u8; 40])
    requires
        h.flow_label <= MAX_FLOW_LABEL,
    ensures
        r@ == ipv6_header_bytes(*h),
{
    let header = etherparse::Ipv6Header {
        traffic_class: h.traffic_class,
        flow_label: etherparse::Ipv6FlowLabel::try_new(h.flow_label).unwrap(),
        payload_length: h.payload_length,
        next_header: etherparse::IpNumber(h.next_header),
        hop_limit: h.hop_limit,
        source: h.source,
        destination: h.destination,
    };
    header.to_bytes()
}

/// Serializes a UDP header with `etherparse::UdpHeader::to_bytes`.
/// Claimed of etherparse: the 8 bytes are the four fields, big-endian, in
/// order, as `udp_header_bytes` states.
#[verifier::external_body]
pub(crate) fn udp_header_to_bytes(u: &UdpFields) -> (r: [u8; 8])
    ensures
        r@ == udp_header_bytes(*u),
{
    let header = etherparse::UdpHeader {
        source_port: u.source_port,
        destination_port: u.destination_port,
        length: u.length,
        checksum: u.checksum,
    };
    header.to_bytes()
}

/// Computes a UDP checksum over IPv6 with
/// `etherparse::UdpHeader::calc_checksum_ipv6_raw`, for a header with the
/// given ports and length (its checksum field is ignored by the call).
/// Claimed of etherparse: it fails only when the payload is longer than
/// `u32::MAX - 8` bytes, and otherwise returns `udp_ipv6_checksum`, the
/// ones' complement of the folded 16-bit word sum over pseudo header, UDP
/// header and payload, with 0 sent as 0xFFFF.
#[verifier::external_body]
pub(crate) fn udp_checksum_ipv6_raw(
    source_port: u16,
    destination_port: u16,
    udp_length: u16,
    source: [u8; 16],
    destination: [u8; 16],
    payload: &[u8],
) -> (r: Option<u16>)
    ensures
        r == (if payload@.len() + 8 <= u32::MAX {
            Some(udp_ipv6_checksum(source@, destination@, source_port, destination_port, udp_length, payload@))
        } else {
            None
        }),
{
    let header = etherparse::UdpHeader { source_port, destination_port, length: udp_length, checksum: 0 };
    header.calc_checksum_ipv6_raw(source, destination, payload).ok()
}


/// The word sum of a concatenation splits when the first part has an even
/// length.
pub proof fn lemma_word_sum_append(a: Seq<u8>, b: Seq<u8>)
    requires
        a.len() % 2 == 0,
    ensures
        word_sum(a + b) == word_sum(a) + word_sum(b),
    decreases a.len(),
{
    if a.len() == 0 {
        assert(a + b =~= b);
    } else {
        let rest = a.subrange(2, a.len() as int);
        lemma_word_sum_append(rest, b);
        assert((a + b).subrange(2, (a + b).len() as int) =~= rest + b);
    }
}

/// The two bytes of `be16(v)` sum to `v`.
pub proof fn lemma_be16_word_sum(v: u16)
    ensures
        word_sum(be16(v)) == v as nat,
        be16(v).len() == 2,
{
    let b = be16(v);
    assert(b.subrange(2, 2) =~= Seq::<u8>::empty());
    assert(b[0] as nat == v as nat / 256);
    assert(b[1] as nat == v as nat % 256);
    assert(word_sum(b.subrange(2, 2)) == 0);
    assert(word_sum(b) == b[0] as nat * 256 + b[1] as nat + word_sum(b.subrange(2, 2)));
    assert(v as nat == (v as nat / 256) * 256 + v as nat % 256);
}

/// The word sum of a UDP header is the sum of its four fields.
pub proof fn lemma_udp_header_word_sum(u: UdpFields)
    ensures
        word_sum(udp_header_bytes(u)) == u.source_port as nat + u.destination_port as nat
            + u.length as nat + u.checksum as nat,
        udp_header_bytes(u).len() == 8,
{
    lemma_be16_word_sum(u.source_port);
    lemma_be16_word_sum(u.destination_port);
    lemma_be16_word_sum(u.length);
    lemma_be16_word_sum(u.checksum);
    let a = be16(u.source_port);
    let b = be16(u.destination_port);
    let c = be16(u.length);
    let d = be16(u.checksum);
    lemma_word_sum_append(a, b);
    lemma_word_sum_append(a + b, c);
    lemma_word_sum_append(a + b + c, d);
}

/// Adding the ones' complement checksum of a sum to that sum gives a value
/// that folds to 0xFFFF.
pub proof fn lemma_fold_with_complement(t: nat)
    ensures
        fold16(t + ones_complement_no_zero(t) as nat) == 65535,
{
    let f = fold16(t);
    if t == 0 {
        assert(ones_complement_no_zero(t) == 65535);
        assert(fold16(65535) == 65535);
    } else {
        assert(1 <= f <= 65535);
        assert((t - 1) % 65535 == f - 1);
        let c = ones_complement_no_zero(t) as nat;
        if f == 65535 {
            assert(c == 65535);
        } else {
            assert(c == 65535 - f);
        }
        let s = (t + c) as nat;
        assert(s > 0);
        assert((s - 1) % 65535 == 65534) by (nonlinear_arith)
            requires
                (t - 1) % 65535 == f - 1,
                1 <= f <= 65535,
                t >= 1,
                s == t + c,
                f == 65535 ==> c == 65535,
                f != 65535 ==> c == 65535 - f,
        {
            let q = (t - 1) / 65535;
            assert(t - 1 == q * 65535 + (f - 1));
            if f == 65535 {
                assert(s - 1 == (q + 1) * 65535 + 65534);
            } else {
                assert(s - 1 == q * 65535 + 65534);
            }
        }
    }
}

/// Law: a UDP datagram over IPv6 that carries the checksum `udp_ipv6_checksum`
/// computes for it passes the receiver's check, whatever its ports, length
/// and payload.
pub proof fn lemma_checksum_verifies(
    source: Seq<u8>,
    destination: Seq<u8>,
    source_port: u16,
    destination_port: u16,
    udp_length: u16,
    payload: Seq<u8>,
)
    requires
        source.len() == 16,
        destination.len() == 16,
    ensures
        udp_ipv6_check_sum(
            source,
            destination,
            UdpFields {
                source_port,
                destination_port,
                length: udp_length,
                checksum: udp_ipv6_checksum(source, destination, source_port, destination_port, udp_length, payload),
            },
            payload,
        ) == 65535,
{
    let c = udp_ipv6_checksum(source, destination, source_port, destination_port, udp_length, payload);
    let p = ipv6_pseudo_header(source, destination, udp_length);
    let u0 = UdpFields { source_port, destination_port, length: udp_length, checksum: 0 };
    let u1 = UdpFields { source_port, destination_port, length: udp_length, checksum: c };
    lemma_udp_header_word_sum(u0);
    lemma_udp_header_word_sum(u1);
    lemma_word_sum_append(p, udp_header_bytes(u0));
    lemma_word_sum_append(p, udp_header_bytes(u1));
    lemma_word_sum_append(p + udp_header_bytes(u0), payload);
    lemma_word_sum_append(p + udp_header_bytes(u1), payload);
    let t = word_sum(p + udp_header_bytes(u0) + payload);
    assert(word_sum(p + udp_header_bytes(u1) + payload) == t + c);
    lemma_fold_with_complement(t);
}

} // verus!
