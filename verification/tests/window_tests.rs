use packetstats::frame::{Direction, Protocol};
use packetstats::window::{AggregationWindow, FlowKey};

fn key(name: &str, direction: Direction, protocol: Protocol, port: u16) -> FlowKey {
    FlowKey { remote_name: name.to_string(), direction, protocol, port }
}

fn rate_for(flows: &[(FlowKey, u64)], k: &FlowKey) -> Option<u64> {
    flows.iter().find(|(fk, _)| fk.key_eq(k)).map(|(_, r)| *r)
}

#[test]
fn rate_is_sum_divided_by_duration() {
    let mut w = AggregationWindow::new(0, 10);
    let k = key("8.8.8.8", Direction::Send, Protocol::Udp, 53);
    w.record(k.duplicate(), 60);
    w.record(k.duplicate(), 45);
    let flows = w.flush(11);
    assert_eq!(flows.len(), 1);
    assert_eq!(rate_for(&flows, &k), Some(10)); // (60 + 45) / 10, truncated
}

#[test]
fn distinct_keys_accumulate_separately() {
    let mut w = AggregationWindow::new(0, 10);
    let a = key("8.8.8.8", Direction::Send, Protocol::Udp, 53);
    let b = key("8.8.8.8", Direction::Recv, Protocol::Udp, 53);
    let c = key("1.1.1.1", Direction::Send, Protocol::Tcp, 443);
    w.record(a.duplicate(), 100);
    w.record(b.duplicate(), 200);
    w.record(a.duplicate(), 30);
    w.record(c.duplicate(), 5000);
    let flows = w.flush(11);
    assert_eq!(flows.len(), 3);
    assert_eq!(rate_for(&flows, &a), Some(13));
    assert_eq!(rate_for(&flows, &b), Some(20));
    assert_eq!(rate_for(&flows, &c), Some(500));
}

#[test]
fn absent_key_is_absent_not_zero_valued_error() {
    let mut w = AggregationWindow::new(0, 10);
    let a = key("8.8.8.8", Direction::Send, Protocol::Udp, 53);
    w.record(a.duplicate(), 60);
    let flows = w.flush(11);
    let other = key("1.1.1.1", Direction::Send, Protocol::Udp, 53);
    assert_eq!(rate_for(&flows, &other), None);
}

#[test]
fn count_below_duration_truncates_to_zero_rate() {
    let mut w = AggregationWindow::new(0, 10);
    let a = key("8.8.8.8", Direction::Send, Protocol::Udp, 53);
    w.record(a.duplicate(), 9);
    let flows = w.flush(11);
    assert_eq!(rate_for(&flows, &a), Some(0));
}

#[test]
fn empty_window_flushes_no_flows() {
    let mut w = AggregationWindow::new(0, 10);
    let flows = w.flush(11);
    assert!(flows.is_empty());
}

#[test]
fn flush_clears_the_window() {
    let mut w = AggregationWindow::new(0, 10);
    let a = key("8.8.8.8", Direction::Send, Protocol::Udp, 53);
    w.record(a.duplicate(), 60);
    let _ = w.flush(11);
    let flows = w.flush(22);
    assert!(flows.is_empty());
}

#[test]
fn elapsed_is_strictly_more_than_duration() {
    let mut w = AggregationWindow::new(5, 10);
    assert!(!w.elapsed(5));
    assert!(!w.elapsed(15));
    assert!(w.elapsed(16));
    let _ = w.flush(16);
    assert!(!w.elapsed(16));
    assert!(w.elapsed(27));
}

#[test]
fn count_saturates_instead_of_wrapping() {
    let mut w = AggregationWindow::new(0, 10);
    let a = key("8.8.8.8", Direction::Send, Protocol::Udp, 53);
    w.record(a.duplicate(), u64::MAX);
    w.record(a.duplicate(), u64::MAX);
    let flows = w.flush(11);
    assert_eq!(rate_for(&flows, &a), Some(u64::MAX / 10));
}

#[test]
fn key_equality_is_structural() {
    let a = key("8.8.8.8", Direction::Send, Protocol::Udp, 53);
    let b = key("8.8.8.8", Direction::Send, Protocol::Udp, 53);
    let c = key("8.8.8.8", Direction::Send, Protocol::Udp, 54);
    assert!(a.key_eq(&b));
    assert!(!a.key_eq(&c));
    assert!(a.key_eq(&a.duplicate()));
}
