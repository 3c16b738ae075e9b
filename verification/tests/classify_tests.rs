use packetstats::frame::{
    classify, Addr, ClassifiedFrame, DecodedFrame, Direction, NetHeader, Protocol,
    TransportHeader,
};

const LOCAL_MAC: [u8; 6] = [0x02, 0x11, 0x22, 0x33, 0x44, 0x55];
const OTHER_MAC: [u8; 6] = [0x02, 0xaa, 0xbb, 0xcc, 0xdd, 0xee];

fn udp_frame(src_mac: [u8; 6]) -> DecodedFrame {
    DecodedFrame {
        src_mac,
        net: NetHeader::V4 {
            source: [192, 168, 1, 2],
            destination: [8, 8, 8, 8],
            total_len: 60,
        },
        transport: TransportHeader::Udp { source_port: 12345, destination_port: 53 },
    }
}

fn classify_udp(src_mac: [u8; 6], server_mode: bool) -> ClassifiedFrame {
    classify(&udp_frame(src_mac), &LOCAL_MAC, server_mode)
}

#[test]
fn direction_send_when_source_is_local() {
    let c = classify_udp(LOCAL_MAC, false);
    assert_eq!(c.direction, Direction::Send);
}

#[test]
fn direction_recv_when_source_is_not_local() {
    let c = classify_udp(OTHER_MAC, false);
    assert_eq!(c.direction, Direction::Recv);
}

#[test]
fn remote_is_destination_when_sending() {
    let c = classify_udp(LOCAL_MAC, false);
    match c.remote {
        Addr::V4(b) => assert_eq!(b, [8, 8, 8, 8]),
        _ => panic!("expected an IPv4 remote"),
    }
}

#[test]
fn remote_is_source_when_receiving() {
    let c = classify_udp(OTHER_MAC, false);
    match c.remote {
        Addr::V4(b) => assert_eq!(b, [192, 168, 1, 2]),
        _ => panic!("expected an IPv4 remote"),
    }
}

#[test]
fn byte_len_is_ipv4_total_length() {
    let c = classify_udp(LOCAL_MAC, false);
    assert_eq!(c.byte_len, 60);
}

#[test]
fn port_client_mode_send_records_destination() {
    let c = classify_udp(LOCAL_MAC, false);
    assert_eq!(c.port, 53);
}

#[test]
fn port_client_mode_recv_records_source() {
    let c = classify_udp(OTHER_MAC, false);
    assert_eq!(c.port, 12345);
}

#[test]
fn port_server_mode_send_records_source() {
    let c = classify_udp(LOCAL_MAC, true);
    assert_eq!(c.port, 12345);
}

#[test]
fn port_server_mode_recv_records_destination() {
    let c = classify_udp(OTHER_MAC, true);
    assert_eq!(c.port, 53);
}

#[test]
fn tcp_frame_classifies_as_tcp() {
    let f = DecodedFrame {
        src_mac: OTHER_MAC,
        net: NetHeader::V4 {
            source: [10, 0, 0, 5],
            destination: [192, 168, 1, 2],
            total_len: 40,
        },
        transport: TransportHeader::Tcp { source_port: 9999, destination_port: 8080 },
    };
    let c = classify(&f, &LOCAL_MAC, false);
    assert_eq!(c.protocol, Protocol::Tcp);
    assert_eq!(c.direction, Direction::Recv);
    assert_eq!(c.port, 9999);
}

#[test]
fn udp_frame_classifies_as_udp() {
    let c = classify_udp(LOCAL_MAC, false);
    assert_eq!(c.protocol, Protocol::Udp);
}

#[test]
fn ipv6_frame_counts_payload_plus_fixed_header_and_v6_remote() {
    let mut dst = [0u8; 16];
    dst[0] = 0x20;
    dst[1] = 0x01;
    dst[15] = 0x01;
    let f = DecodedFrame {
        src_mac: LOCAL_MAC,
        net: NetHeader::V6 { source: [0u8; 16], destination: dst, payload_len: 120 },
        transport: TransportHeader::Udp { source_port: 1000, destination_port: 53 },
    };
    let c = classify(&f, &LOCAL_MAC, false);
    assert_eq!(c.byte_len, 160); // payload length plus the 40-byte fixed header
    match c.remote {
        Addr::V6(b) => assert_eq!(b, dst),
        _ => panic!("expected an IPv6 remote"),
    }
}
