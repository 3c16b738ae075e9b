use packetstats::emit::{format_flow_line, format_meta_line};
use packetstats::frame::{Direction, Protocol};
use packetstats::stats::{sample, CaptureCounters};
use packetstats::text::u64_to_dec;
use packetstats::window::FlowKey;

#[test]
fn decimal_rendering() {
    assert_eq!(u64_to_dec(0), "0");
    assert_eq!(u64_to_dec(7), "7");
    assert_eq!(u64_to_dec(10), "10");
    assert_eq!(u64_to_dec(65535), "65535");
    assert_eq!(u64_to_dec(u64::MAX), "18446744073709551615");
}

#[test]
fn flow_line_format() {
    let k = FlowKey {
        remote_name: "8.8.8.8".to_string(),
        direction: Direction::Send,
        protocol: Protocol::Udp,
        port: 53,
    };
    assert_eq!(
        format_flow_line("eth0", &k, 6),
        "packetstats,interface=eth0,address=8.8.8.8,counter=send,protocol=udp,port=53 value=6"
    );
}

#[test]
fn flow_line_recv_tcp() {
    let k = FlowKey {
        remote_name: "dns.example".to_string(),
        direction: Direction::Recv,
        protocol: Protocol::Tcp,
        port: 8080,
    };
    assert_eq!(
        format_flow_line("wlan1", &k, 123),
        "packetstats,interface=wlan1,address=dns.example,counter=recv,protocol=tcp,port=8080 value=123"
    );
}

#[test]
fn meta_line_format() {
    assert_eq!(
        format_meta_line("eth0", 2, 1, 0),
        "packetstats_meta,interface=eth0 received=2,dropped=1,if_dropped=0"
    );
}

#[test]
fn sample_divides_deltas_by_duration() {
    let prev = CaptureCounters { received: 100, dropped: 10, if_dropped: 0 };
    let cur = CaptureCounters { received: 160, dropped: 15, if_dropped: 9 };
    assert_eq!(sample(&prev, &cur, 10), (6, 0, 0));
}

#[test]
fn sample_clamps_decreasing_counters_to_zero() {
    let prev = CaptureCounters { received: 100, dropped: 50, if_dropped: 20 };
    let cur = CaptureCounters { received: 40, dropped: 50, if_dropped: 120 };
    assert_eq!(sample(&prev, &cur, 10), (0, 0, 10));
}
