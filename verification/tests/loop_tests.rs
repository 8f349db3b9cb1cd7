use screencast_bridge::datagram::{build_frame_datagram, MessageType, TunnelEndpoints};
use screencast_bridge::forwarding::{FrameAction, LoopControl, LoopEvent, PacketLoop, LOG_INTERVAL};
use screencast_bridge::inbound::{classify_inbound, handle_inbound, InboundAction, IpPacketSummary};

fn addr(last: u8) -> [u8; 16] {
    let mut a = [0u8; 16];
    a[0] = 0xfd;
    a[15] = last;
    a
}

fn endpoints() -> TunnelEndpoints {
    TunnelEndpoints { local: addr(1), remote: addr(2), app_port: 12345 }
}

fn udp_packet_to(port: u16, payload: &[u8]) -> Vec<u8> {
    let ep = TunnelEndpoints { local: addr(2), remote: addr(1), app_port: port };
    let mut d = build_frame_datagram(&ep, MessageType::Video, payload).unwrap();
    // the source port stays `port`; only the destination matters here
    d[42] = (port >> 8) as u8;
    d[43] = port as u8;
    d
}

#[test]
fn udp_to_app_port_is_reported_with_its_payload_length() {
    let packet = udp_packet_to(12345, &[9, 9, 9]);
    assert_eq!(
        handle_inbound(&packet, 12345),
        InboundAction::ReportAppDatagram { payload_len: 4 }
    );
}

#[test]
fn udp_to_other_port_is_ignored() {
    let packet = udp_packet_to(4000, &[9, 9, 9]);
    assert_eq!(handle_inbound(&packet, 12345), InboundAction::Ignore);
}

#[test]
fn garbage_is_reported_as_malformed() {
    match handle_inbound(&[0xff, 0x00, 0x01], 12345) {
        InboundAction::WarnMalformed { reason } => assert!(!reason.is_empty()),
        other => panic!("unexpected {:?}", other),
    }
    match handle_inbound(&[], 12345) {
        InboundAction::WarnMalformed { .. } => {}
        other => panic!("unexpected {:?}", other),
    }
}

#[test]
fn tcp_is_ignored() {
    let builder = etherparse::PacketBuilder::ipv6(addr(2), addr(1), 64).tcp(12345, 12345, 1, 100);
    let mut packet = Vec::new();
    builder.write(&mut packet, &[1, 2, 3]).unwrap();
    assert_eq!(handle_inbound(&packet, 12345), InboundAction::Ignore);
}

#[test]
fn classify_covers_each_summary() {
    assert_eq!(classify_inbound(IpPacketSummary::NoTransport, 1), InboundAction::Ignore);
    assert_eq!(classify_inbound(IpPacketSummary::OtherTransport, 1), InboundAction::Ignore);
    assert_eq!(
        classify_inbound(IpPacketSummary::Malformed { reason: "bad".to_string() }, 1),
        InboundAction::WarnMalformed { reason: "bad".to_string() }
    );
    assert_eq!(
        classify_inbound(
            IpPacketSummary::Udp { source_port: 5, destination_port: 1, payload_len: 77 },
            1
        ),
        InboundAction::ReportAppDatagram { payload_len: 77 }
    );
    assert_eq!(
        classify_inbound(
            IpPacketSummary::Udp { source_port: 1, destination_port: 5, payload_len: 77 },
            1
        ),
        InboundAction::Ignore
    );
}

#[test]
fn loop_counts_frames_and_logs_every_thirtieth() {
    let mut lp = PacketLoop::new(endpoints());
    assert_eq!(lp.frame_count, 0);
    for n in 1..=60u64 {
        match lp.on_frame(&[1, 2, 3]) {
            FrameAction::Send { headers, message, log_progress } => {
                assert_eq!(headers.len(), 48);
                assert_eq!(message, 0);
                assert_eq!(log_progress, n % LOG_INTERVAL == 0);
            }
            other => panic!("unexpected {:?}", other),
        }
        assert_eq!(lp.frame_count, n);
    }
}

#[test]
fn oversized_and_unreadable_frames_still_count() {
    let mut lp = PacketLoop::new(endpoints());
    let big = vec![0u8; 65527];
    assert_eq!(lp.on_frame(&big), FrameAction::DropOversized { frame_len: 65527 });
    assert_eq!(lp.frame_count, 1);
    assert_eq!(lp.on_unreadable_frame(), FrameAction::SkipUnreadable);
    assert_eq!(lp.frame_count, 2);
    assert_eq!(lp.endpoints, endpoints());
}

#[test]
fn loop_frames_match_the_datagram_builder() {
    let mut lp = PacketLoop::new(endpoints());
    let payload = b"frame".to_vec();
    let d = build_frame_datagram(&endpoints(), MessageType::Video, &payload).unwrap();
    match lp.on_frame(&payload) {
        FrameAction::Send { headers, message, .. } => {
            assert_eq!(&d[..48], &headers[..]);
            assert_eq!(d[48], message);
        }
        other => panic!("unexpected {:?}", other),
    }
}

#[test]
fn inbound_leaves_the_loop_state_alone() {
    let lp = PacketLoop::new(endpoints());
    let packet = udp_packet_to(12345, &[]);
    assert_eq!(lp.on_inbound(&packet), InboundAction::ReportAppDatagram { payload_len: 1 });
    assert_eq!(lp.frame_count, 0);
}

#[test]
fn only_a_sent_frame_keeps_the_loop_going() {
    let lp = PacketLoop::new(endpoints());
    assert_eq!(lp.control(LoopEvent::FrameSent), LoopControl::Continue);
    assert_eq!(lp.control(LoopEvent::SendFailed), LoopControl::Stop);
    assert_eq!(lp.control(LoopEvent::StreamsEnded), LoopControl::Stop);
    assert_eq!(lp.control(LoopEvent::PipelineStartFailed), LoopControl::Stop);
}

fn sent_for(lp: &mut PacketLoop, frames: &[Vec<u8>], packets_between: &[Vec<u8>]) -> Vec<Vec<u8>> {
    let mut sent = Vec::new();
    for f in frames {
        for p in packets_between {
            let _ = lp.on_inbound(p);
        }
        if let FrameAction::Send { headers, message, .. } = lp.on_frame(f) {
            let mut d = headers.clone();
            d.push(message);
            d.extend_from_slice(f);
            sent.push(d);
        }
    }
    sent
}

#[test]
fn packets_from_the_device_do_not_change_what_is_sent() {
    let frames = vec![vec![1u8, 2, 3], vec![0u8; 70000], vec![], vec![9u8; 100]];
    let packets = vec![udp_packet_to(12345, &[5]), udp_packet_to(80, &[6, 7]), vec![0xff, 0xee]];
    let mut with = PacketLoop::new(endpoints());
    let mut without = PacketLoop::new(endpoints());
    let a = sent_for(&mut with, &frames, &packets);
    let b = sent_for(&mut without, &frames, &[]);
    assert_eq!(a, b);
    assert_eq!(a.len(), 3);
    assert_eq!(with, without);
}
