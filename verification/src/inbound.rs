//! Packets that arrive from the device through the tunnel.
//!
//! The IP and transport headers are decoded by `etherparse`; the library
//! decides from the decoded headers what becomes of the packet.
use vstd::prelude::*;

verus! {

/// What the headers of an IP packet say, as far as the forwarding logic
/// reads them.
#[derive(Clone, Debug, PartialEq, Eq)]
pub enum IpPacketSummary {
    /// The bytes are not a well-formed IP packet; `reason` describes why.
    Malformed { reason: String },
    /// A well-formed IP packet without a decoded transport header.
    NoTransport,
    /// A well-formed IP packet with a transport header other than UDP.
    OtherTransport,
    /// A UDP datagram, with its ports and the length of its payload.
    Udp { source_port: u16, destination_port: u16, payload_len: usize },
}

/// What `etherparse::PacketHeaders::from_ip_slice` makes of `packet`,
/// summarized as an `IpPacketSummary`.
pub uninterp spec fn ip_packet_summary(packet: Seq<u8>) -> IpPacketSummary;

/// Decodes the headers of an IP packet with
/// `etherparse::PacketHeaders::from_ip_slice`. Claimed of etherparse: the
/// result depends on the bytes alone (it is `ip_packet_summary(packet@)`);
/// the decoding itself (IPv4 or IPv6, extension headers, transport) is not
/// stated here.
#[verifier::external_body]
pub(crate) fn summarize_ip_packet(packet: &[u8]) -> (r: IpPacketSummary)
    ensures
        r == ip_packet_summary(packet@),
{
    match etherparse::PacketHeaders::from_ip_slice(packet) {
        Err(e) => IpPacketSummary::Malformed { reason: e.to_string() },
        Ok(headers) => match headers.transport {
            None => IpPacketSummary::NoTransport,
            Some(etherparse::TransportHeader::Udp(udp)) => IpPacketSummary::Udp {
                source_port: udp.source_port,
                destination_port: udp.destination_port,
                payload_len: headers.payload.slice().len(),
            },
            Some(etherparse::TransportHeader::Tcp(_)) => IpPacketSummary::OtherTransport,
            Some(etherparse::TransportHeader::Icmpv4(_)) => IpPacketSummary::OtherTransport,
            Some(etherparse::TransportHeader::Icmpv6(_)) => IpPacketSummary::OtherTransport,
            Some(etherparse::TransportHeader::Igmp(_)) => IpPacketSummary::OtherTransport,
        },
    }
}

/// What the forwarding loop does with an arriving packet.
#[derive(Clone, Debug, PartialEq, Eq)]
pub enum InboundAction {
    /// A UDP datagram for the application port: report its payload length.
    ReportAppDatagram { payload_len: usize },
    /// Anything else that is well formed: ignore it.
    Ignore,
    /// The packet is malformed: warn with the reason and ignore it.
    WarnMalformed { reason: String },
}

/// The action for a packet with the given header summary, when the
/// application listens on `app_port`.
pub open spec fn inbound_action(summary: IpPacketSummary, app_port: u16) -> InboundAction {
    match summary {
        IpPacketSummary::Malformed { reason } => InboundAction::WarnMalformed { reason },
        IpPacketSummary::NoTransport => InboundAction::Ignore,
        IpPacketSummary::OtherTransport => InboundAction::Ignore,
        IpPacketSummary::Udp { source_port, destination_port, payload_len } => if destination_port
            == app_port {
            InboundAction::ReportAppDatagram { payload_len }
        } else {
            InboundAction::Ignore
        },
    }
}

/// Law: a UDP datagram to the application port is reported with exactly its
/// payload length, whatever its source port and its size; a UDP datagram to
/// any other port is ignored.
pub proof fn lemma_udp_to_app_port_is_reported(
    source_port: u16,
    destination_port: u16,
    payload_len: usize,
    app_port: u16,
)
    ensures
        ({
            let s = IpPacketSummary::Udp { source_port, destination_port, payload_len };
            &&& destination_port == app_port ==> inbound_action(s, app_port)
                == (InboundAction::ReportAppDatagram { payload_len })
            &&& destination_port != app_port ==> inbound_action(s, app_port) == InboundAction::Ignore
        }),
{
}

/// Law: only a malformed packet is warned about, with the decoder's reason;
/// a well-formed packet without a UDP header is ignored.
pub proof fn lemma_other_packets(reason: String, app_port: u16)
    ensures
        inbound_action(IpPacketSummary::Malformed { reason }, app_port) == (InboundAction::WarnMalformed {
            reason,
        }),
        inbound_action(IpPacketSummary::NoTransport, app_port) == InboundAction::Ignore,
        inbound_action(IpPacketSummary::OtherTransport, app_port) == InboundAction::Ignore,
{
}

/// Decides what becomes of a packet whose headers were decoded into `summary`.
pub fn classify_inbound(summary: IpPacketSummary, app_port: u16) -> (r: InboundAction)
    ensures
        r == inbound_action(summary, app_port),
        summary matches IpPacketSummary::Udp { destination_port, payload_len, .. } ==> (
        destination_port == app_port ==> r == (InboundAction::ReportAppDatagram { payload_len })),
        summary matches IpPacketSummary::Udp { destination_port, .. } ==> (destination_port != app_port
            ==> r == InboundAction::Ignore),
        summary matches IpPacketSummary::Malformed { reason } ==> r == (InboundAction::WarnMalformed {
            reason,
        }),
        (summary is NoTransport || summary is OtherTransport) ==> r == InboundAction::Ignore,
{
    match summary {
        IpPacketSummary::Malformed { reason } => InboundAction::WarnMalformed { reason },
        IpPacketSummary::NoTransport => InboundAction::Ignore,
        IpPacketSummary::OtherTransport => InboundAction::Ignore,
        IpPacketSummary::Udp { source_port: _, destination_port, payload_len } => {
            if destination_port == app_port {
                InboundAction::ReportAppDatagram { payload_len }
            } else {
                InboundAction::Ignore
            }
        },
    }
}

/// Decodes an arriving packet and decides what becomes of it.
pub fn handle_inbound(packet: &[u8], app_port: u16) -> (r: InboundAction)
    ensures
        r == inbound_action(ip_packet_summary(packet@), app_port),
{
    let summary = summarize_ip_packet(packet);
    classify_inbound(summary, app_port)
}

} // verus!
