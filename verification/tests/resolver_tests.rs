use packetstats::frame::Addr;
use packetstats::resolver::ResolverCache;
use packetstats::text::{addr_to_string, parse_mac};

#[test]
fn names_disabled_returns_literal_address() {
    let c = ResolverCache::new(false);
    let a = Addr::V4([8, 8, 8, 8]);
    assert_eq!(c.resolve_local(&a), Some("8.8.8.8".to_string()));
}

#[test]
fn miss_needs_lookup_then_hit_does_not() {
    let mut c = ResolverCache::new(true);
    let a = Addr::V4([8, 8, 8, 8]);
    assert!(c.lookup_needed(&a));
    assert_eq!(c.resolve_local(&a), None);
    let name = c.complete(&a, Some("dns.example".to_string()));
    assert_eq!(name, "dns.example");
    // The same address again within the window: served from the cache.
    assert!(!c.lookup_needed(&a));
    assert_eq!(c.resolve_local(&a), Some("dns.example".to_string()));
}

#[test]
fn failed_lookup_falls_back_to_literal_and_is_cached() {
    let mut c = ResolverCache::new(true);
    let a = Addr::V4([10, 0, 0, 5]);
    let name = c.complete(&a, None);
    assert_eq!(name, "10.0.0.5");
    assert_eq!(c.resolve_local(&a), Some("10.0.0.5".to_string()));
}

#[test]
fn completing_a_cached_address_keeps_the_first_name() {
    let mut c = ResolverCache::new(true);
    let a = Addr::V4([8, 8, 8, 8]);
    let _ = c.complete(&a, Some("first.example".to_string()));
    let name = c.complete(&a, Some("second.example".to_string()));
    assert_eq!(name, "first.example");
}

#[test]
fn clear_lets_a_later_window_look_up_anew() {
    let mut c = ResolverCache::new(true);
    let a = Addr::V4([8, 8, 8, 8]);
    let _ = c.complete(&a, Some("dns.example".to_string()));
    assert!(!c.lookup_needed(&a));
    c.clear();
    assert!(c.lookup_needed(&a));
    assert_eq!(c.resolve_local(&a), None);
}

#[test]
fn distinct_addresses_cache_independently() {
    let mut c = ResolverCache::new(true);
    let a = Addr::V4([8, 8, 8, 8]);
    let b = Addr::V4([1, 1, 1, 1]);
    let _ = c.complete(&a, Some("a.example".to_string()));
    assert!(c.lookup_needed(&b));
    let _ = c.complete(&b, None);
    assert_eq!(c.resolve_local(&a), Some("a.example".to_string()));
    assert_eq!(c.resolve_local(&b), Some("1.1.1.1".to_string()));
}

#[test]
fn ipv4_literal_form() {
    assert_eq!(addr_to_string(&Addr::V4([0, 0, 0, 0])), "0.0.0.0");
    assert_eq!(addr_to_string(&Addr::V4([255, 255, 255, 255])), "255.255.255.255");
    assert_eq!(addr_to_string(&Addr::V4([192, 168, 1, 2])), "192.168.1.2");
}

#[test]
fn ipv6_literal_form() {
    let mut b = [0u8; 16];
    b[0] = 0x20;
    b[1] = 0x01;
    b[2] = 0x0d;
    b[3] = 0xb8;
    b[15] = 0x01;
    assert_eq!(addr_to_string(&Addr::V6(b)), "2001:db8:0:0:0:0:0:1");
    assert_eq!(addr_to_string(&Addr::V6([0u8; 16])), "0:0:0:0:0:0:0:0");
    assert_eq!(addr_to_string(&Addr::V6([0xff; 16])), "ffff:ffff:ffff:ffff:ffff:ffff:ffff:ffff");
}

#[test]
fn parse_mac_accepts_the_canonical_form() {
    assert_eq!(
        parse_mac(b"02:11:22:33:44:55"),
        Some([0x02, 0x11, 0x22, 0x33, 0x44, 0x55])
    );
    assert_eq!(
        parse_mac(b"AA:bb:Cc:dD:0e:F0"),
        Some([0xaa, 0xbb, 0xcc, 0xdd, 0x0e, 0xf0])
    );
}

#[test]
fn parse_mac_rejects_malformed_text() {
    assert_eq!(parse_mac(b""), None);
    assert_eq!(parse_mac(b"02:11:22:33:44"), None);
    assert_eq!(parse_mac(b"02:11:22:33:44:5"), None);
    assert_eq!(parse_mac(b"02:11:22:33:44:55\n"), None);
    assert_eq!(parse_mac(b"0g:11:22:33:44:55"), None);
    assert_eq!(parse_mac(b"02-11-22-33-44-55"), None);
}
