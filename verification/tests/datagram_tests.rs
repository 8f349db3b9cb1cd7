use screencast_bridge::datagram::{
    build_frame_datagram, build_frame_headers, frame_payload_bytes, MessageType, TunnelEndpoints,
    DEFAULT_HOP_LIMIT, MAX_FRAME_PAYLOAD,
};

fn addr(last: u8) -> [u8; 16] {
    let mut a = [0u8; 16];
    a[0] = 0xfd;
    a[15] = last;
    a
}

fn endpoints() -> TunnelEndpoints {
    TunnelEndpoints { local: addr(1), remote: addr(2), app_port: 12345 }
}

/// Folded 16-bit word sum, as a receiver computes it.
fn receiver_sum(bytes: &[u8]) -> u32 {
    let mut sum: u64 = 0;
    let mut i = 0;
    while i + 1 < bytes.len() {
        sum += (bytes[i] as u64) * 256 + bytes[i + 1] as u64;
        i += 2;
    }
    if i < bytes.len() {
        sum += (bytes[i] as u64) * 256;
    }
    while sum > 0xffff {
        sum = (sum & 0xffff) + (sum >> 16);
    }
    sum as u32
}

fn check_sum_of_datagram(d: &[u8]) -> u32 {
    let mut pseudo = Vec::new();
    pseudo.extend_from_slice(&d[8..24]);
    pseudo.extend_from_slice(&d[24..40]);
    pseudo.extend_from_slice(&[0, 0, d[44], d[45], 0, 0, 0, 17]);
    pseudo.extend_from_slice(&d[40..]);
    receiver_sum(&pseudo)
}

#[test]
fn small_frame_has_exact_bytes() {
    let d = build_frame_datagram(&endpoints(), MessageType::Video, b"hi").unwrap();
    let expected: Vec<u8> = vec![
        96, 0, 0, 0, 0, 11, 17, 64, 253, 0, 0, 0, 0, 0, 0, 0, 0, 0, 0, 0, 0, 0, 0, 1, 253, 0, 0,
        0, 0, 0, 0, 0, 0, 0, 0, 0, 0, 0, 0, 2, 48, 57, 48, 57, 0, 11, 59, 249, 0, 104, 105,
    ];
    assert_eq!(d, expected);
}

#[test]
fn headers_are_the_first_48_bytes_of_the_datagram() {
    let payload: Vec<u8> = (0..1000u32).map(|i| (i * 7 % 256) as u8).collect();
    let h = build_frame_headers(&endpoints(), MessageType::Video, &payload).unwrap();
    let d = build_frame_datagram(&endpoints(), MessageType::Video, &payload).unwrap();
    assert_eq!(h.len(), 48);
    assert_eq!(&d[..48], &h[..]);
    assert_eq!(d[48], MessageType::Video.code());
    assert_eq!(&d[49..], &payload[..]);
}

#[test]
fn checksum_passes_the_receiver_check() {
    for len in [0usize, 1, 2, 3, 17, 1400, 65526] {
        let payload: Vec<u8> = (0..len).map(|i| (i * 31 % 251) as u8).collect();
        let d = build_frame_datagram(&endpoints(), MessageType::Video, &payload).unwrap();
        assert_eq!(check_sum_of_datagram(&d), 0xffff, "len {}", len);
    }
}

#[test]
fn checksum_matches_etherparse_over_the_whole_udp_payload() {
    let payload = b"some frame bytes".to_vec();
    let d = build_frame_datagram(&endpoints(), MessageType::Video, &payload).unwrap();
    let ip = etherparse::Ipv6Header {
        traffic_class: 0,
        flow_label: etherparse::Ipv6FlowLabel::ZERO,
        payload_length: (d.len() - 40) as u16,
        next_header: etherparse::IpNumber::UDP,
        hop_limit: 64,
        source: addr(1),
        destination: addr(2),
    };
    let udp = etherparse::UdpHeader::with_ipv6_checksum(12345, 12345, &ip, &d[48..]).unwrap();
    assert_eq!(u16::from_be_bytes([d[46], d[47]]), udp.checksum);
}

#[test]
fn datagram_decodes_with_etherparse() {
    let payload = vec![1u8, 2, 3, 4, 5];
    let d = build_frame_datagram(&endpoints(), MessageType::Video, &payload).unwrap();
    let headers = etherparse::PacketHeaders::from_ip_slice(&d).unwrap();
    match headers.net {
        Some(etherparse::NetHeaders::Ipv6(ip, _)) => {
            assert_eq!(ip.source, addr(1));
            assert_eq!(ip.destination, addr(2));
            assert_eq!(ip.hop_limit, DEFAULT_HOP_LIMIT);
            assert_eq!(ip.payload_length as usize, d.len() - 40);
        }
        _ => panic!("expected an IPv6 header"),
    }
    match headers.transport {
        Some(etherparse::TransportHeader::Udp(udp)) => {
            assert_eq!(udp.source_port, 12345);
            assert_eq!(udp.destination_port, 12345);
            assert_eq!(udp.length as usize, 8 + 1 + payload.len());
        }
        _ => panic!("expected a UDP header"),
    }
    assert_eq!(headers.payload.slice(), &d[48..]);
}

#[test]
fn largest_frame_fits_and_one_more_byte_does_not() {
    assert_eq!(MAX_FRAME_PAYLOAD, 65526);
    let max = vec![0xabu8; MAX_FRAME_PAYLOAD];
    let d = build_frame_datagram(&endpoints(), MessageType::Video, &max).unwrap();
    assert_eq!(d.len(), 40 + 65535);
    assert_eq!(&d[4..6], &[0xff, 0xff]);
    assert_eq!(&d[44..46], &[0xff, 0xff]);
    let too_big = vec![0xabu8; MAX_FRAME_PAYLOAD + 1];
    assert!(build_frame_datagram(&endpoints(), MessageType::Video, &too_big).is_none());
    assert!(build_frame_headers(&endpoints(), MessageType::Video, &too_big).is_none());
}

#[test]
fn empty_frame_carries_only_the_message_byte() {
    let d = build_frame_datagram(&endpoints(), MessageType::Video, &[]).unwrap();
    assert_eq!(d.len(), 49);
    assert_eq!(&d[44..46], &[0, 9]);
    assert_eq!(check_sum_of_datagram(&d), 0xffff);
}

#[test]
fn payload_bytes_start_with_the_message_code() {
    assert_eq!(frame_payload_bytes(MessageType::Video, &[7, 8]), vec![0, 7, 8]);
    assert_eq!(MessageType::Video.code(), 0);
}
