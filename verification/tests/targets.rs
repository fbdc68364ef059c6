use rustscan_rs::errors::RustScanError;
use rustscan_rs::ip::{address_count, ip_to_string, IpAddress, Network};
use rustscan_rs::targets::{
    address_target, parse_target, pick_resolved_address, TargetKind, MAX_CIDR_HOSTS,
};

/// An address in the library's form, from its text.
fn ip(s: &str) -> IpAddress {
    match s.parse::<ipnetwork::IpNetwork>().unwrap() {
        ipnetwork::IpNetwork::V4(n) => IpAddress::V4(u32::from(n.ip())),
        ipnetwork::IpNetwork::V6(n) => IpAddress::V6(u128::from(n.ip())),
    }
}

/// The standard library's text of an IPv6 address.
fn std_v6_text(v: u128) -> String {
    ipnetwork::Ipv6Network::new(v.into(), 128).unwrap().ip().to_string()
}

/// A network in the library's form, parsed by ipnetwork.
fn net(s: &str) -> Network {
    match s.parse::<ipnetwork::IpNetwork>().unwrap() {
        ipnetwork::IpNetwork::V4(n) => Network::V4 { addr: u32::from(n.ip()), prefix: n.prefix() },
        ipnetwork::IpNetwork::V6(n) => Network::V6 { addr: u128::from(n.ip()), prefix: n.prefix() },
    }
}

// ── Single IP ─────────────────────────────────────────────────────────

#[test]
fn ipv4_single_host_parsed_correctly() {
    let t = parse_target("192.168.1.1").unwrap();
    assert_eq!(t.addrs, vec![ip("192.168.1.1")]);
    assert!(!t.is_multi_host());
    assert!(matches!(t.kind, TargetKind::Single(_)));
}

#[test]
fn ipv6_single_host_parsed_correctly() {
    let t = parse_target("::1").unwrap();
    assert_eq!(t.addrs, vec![ip("::1")]);
    assert!(matches!(t.kind, TargetKind::Single(_)));
}

#[test]
fn loopback_parsed_correctly() {
    let t = parse_target("127.0.0.1").unwrap();
    assert_eq!(t.addrs.len(), 1);
    assert_eq!(ip_to_string(t.addrs[0]), "127.0.0.1");
}

// ── CIDR ranges ───────────────────────────────────────────────────────

#[test]
fn cidr_slash32_yields_one_address() {
    let t = parse_target("10.0.0.1/32").unwrap();
    assert_eq!(t.addrs.len(), 1);
    assert!(matches!(t.kind, TargetKind::Network(_)));
}

#[test]
fn cidr_slash30_yields_four_addresses() {
    // /30 = 4 addresses: network, 2 hosts, broadcast
    let t = parse_target("10.0.0.0/30").unwrap();
    assert_eq!(t.addrs.len(), 4);
    let ips: Vec<String> = t.addrs.iter().map(|a| ip_to_string(*a)).collect();
    assert!(ips.contains(&"10.0.0.0".to_string()));
    assert!(ips.contains(&"10.0.0.3".to_string()));
}

#[test]
fn cidr_slash24_yields_256_addresses() {
    let t = parse_target("192.168.1.0/24").unwrap();
    assert_eq!(t.addrs.len(), 256);
    // First address = network address
    assert_eq!(ip_to_string(t.addrs[0]), "192.168.1.0");
    // Last address = broadcast
    assert_eq!(ip_to_string(t.addrs[255]), "192.168.1.255");
}

#[test]
fn cidr_addresses_are_in_ascending_order() {
    let t = parse_target("10.0.0.0/28").unwrap(); // 16 addresses
    for window in t.addrs.windows(2) {
        assert!(window[0] < window[1], "addresses must be ascending");
    }
}

#[test]
fn cidr_slash16_at_exact_limit_is_accepted() {
    // /16 = 65 536 addresses, exactly at MAX_CIDR_HOSTS
    let t = parse_target("10.0.0.0/16").unwrap();
    assert_eq!(t.addrs.len(), 65_536);
}

#[test]
fn cidr_slash15_exceeds_limit_and_is_rejected() {
    // /15 = 131 072 addresses, above MAX_CIDR_HOSTS
    let err = parse_target("10.0.0.0/15").unwrap_err();
    assert!(matches!(err, RustScanError::CidrTooLarge { .. }));
}

#[test]
fn invalid_cidr_notation_returns_error() {
    let err = parse_target("192.168.1.0/99").unwrap_err();
    assert!(matches!(err, RustScanError::InvalidCidr { .. }));
}

#[test]
fn invalid_cidr_octets_returns_error() {
    let err = parse_target("999.999.999.0/24").unwrap_err();
    assert!(matches!(err, RustScanError::InvalidCidr { .. }));
}

// ── Hostnames ─────────────────────────────────────────────────────────

#[test]
fn hostname_stored_as_is() {
    let t = parse_target("scanme.nmap.org").unwrap();
    assert!(matches!(t.kind, TargetKind::Hostname(_)));
    assert!(t.addrs.is_empty(), "hostname addrs should be empty until DNS");
}

#[test]
fn localhost_hostname_stored_as_hostname() {
    let t = parse_target("localhost").unwrap();
    assert!(matches!(t.kind, TargetKind::Hostname(_)));
}

// ── Display label ─────────────────────────────────────────────────────

#[test]
fn display_label_single() {
    let t = parse_target("1.2.3.4").unwrap();
    assert_eq!(t.display_label(), "1.2.3.4");
}

#[test]
fn display_label_network_includes_count() {
    let t = parse_target("10.0.0.0/24").unwrap();
    assert_eq!(t.display_label(), "10.0.0.0/24 (256 hosts)");
}

#[test]
fn display_label_hostname_before_resolution() {
    let t = parse_target("example.com").unwrap();
    assert_eq!(t.display_label(), "example.com");
}

#[test]
fn display_label_hostname_after_resolution() {
    let t = parse_target("example.com").unwrap().with_addr(ip("1.2.3.4"));
    assert_eq!(t.display_label(), "example.com → 1.2.3.4");
}

// ── address_count helper ──────────────────────────────────────────────

#[test]
fn address_count_slash32() {
    let n = net("192.168.1.1/32");
    assert_eq!(address_count(n), 1);
}

#[test]
fn address_count_slash24() {
    let n = net("10.0.0.0/24");
    assert_eq!(address_count(n), 256);
}

#[test]
fn address_count_slash16() {
    let n = net("10.0.0.0/16");
    assert_eq!(address_count(n), 65_536);
}

#[test]
fn address_count_slash0() {
    let n = net("0.0.0.0/0");
    // 2^32 = 4_294_967_296, fits in u64
    assert_eq!(address_count(n), 4_294_967_296u64);
}

// ── Further cases ────────────────────────────────────────────────────────

#[test]
fn address_count_ipv6() {
    assert_eq!(address_count(net("2001:db8::/120")), 256);
    assert_eq!(address_count(net("2001:db8::/65")), 1u64 << 63);
    assert_eq!(address_count(net("2001:db8::/64")), u64::MAX);
    assert_eq!(address_count(net("::/0")), u64::MAX);
}

#[test]
fn target_is_trimmed() {
    let t = parse_target("  10.1.2.3\t\n").unwrap();
    assert_eq!(t.spec, "10.1.2.3");
    assert_eq!(t.addrs, vec![ip("10.1.2.3")]);
    let h = parse_target(" example.org ").unwrap();
    assert_eq!(h.spec, "example.org");
    assert!(matches!(h.kind, TargetKind::Hostname(ref n) if n == "example.org"));
}

#[test]
fn cidr_expansion_starts_at_network_address() {
    // The address as written need not be the network address.
    let t = parse_target("10.1.9.32/29").unwrap();
    let ips: Vec<String> = t.addrs.iter().map(|a| ip_to_string(*a)).collect();
    assert_eq!(ips.first().unwrap(), "10.1.9.32");
    assert_eq!(ips.last().unwrap(), "10.1.9.39");
    let u = parse_target("10.1.9.37/29").unwrap();
    assert_eq!(u.addrs, t.addrs);
    assert_eq!(u.display_label(), "10.1.9.37/29 (8 hosts)");
}

#[test]
fn cidr_expansion_matches_ipnetwork_iteration() {
    for spec in ["192.168.7.130/25", "172.16.0.0/22", "2001:db8::ff00/120", "fe80::1/126"] {
        let ours = parse_target(spec).unwrap().addrs;
        let theirs: Vec<IpAddress> = spec
            .parse::<ipnetwork::IpNetwork>()
            .unwrap()
            .iter()
            .map(|a| ip(&a.to_string()))
            .collect();
        assert_eq!(ours, theirs, "{spec}");
    }
}

#[test]
fn netmask_notation_is_accepted() {
    let t = parse_target("10.0.0.0/255.255.255.0").unwrap();
    assert_eq!(t.addrs.len(), 256);
    assert_eq!(t.display_label(), "10.0.0.0/24 (256 hosts)");
}

#[test]
fn invalid_cidr_reason_names_the_input() {
    match parse_target("192.168.1.0/35").unwrap_err() {
        RustScanError::InvalidCidr { input, reason } => {
            assert_eq!(input, "192.168.1.0/35");
            assert_eq!(reason, "invalid address: 192.168.1.0/35");
        }
        other => panic!("unexpected error {other:?}"),
    }
}

#[test]
fn too_large_range_reports_count_and_limit() {
    match parse_target("10.0.0.0/8").unwrap_err() {
        RustScanError::CidrTooLarge { input, count, max } => {
            assert_eq!(input, "10.0.0.0/8");
            assert_eq!(count, 16_777_216);
            assert_eq!(max, MAX_CIDR_HOSTS);
        }
        other => panic!("unexpected error {other:?}"),
    }
    match parse_target("2001:db8::/32").unwrap_err() {
        RustScanError::CidrTooLarge { count, .. } => assert_eq!(count, u64::MAX),
        other => panic!("unexpected error {other:?}"),
    }
}

#[test]
fn ipv6_text_matches_std() {
    let samples = [
        "::", "::1", "1::", "2001:db8::1", "2001:db8:0:0:1:0:0:1", "fe80::1:2:3:4",
        "1:0:0:2:0:0:0:3", "1:2:3:4:5:6:7:8", "0:1:0:1:0:1:0:1", "::ffff:192.0.2.128",
        "::192.0.2.128", "ffff::", "2001:db8:0:1:1:1:1:1", "abcd:ef01:2345:6789:0:0:0:0",
    ];
    for s in samples {
        let v = match ip(s) {
            IpAddress::V6(v) => v,
            IpAddress::V4(_) => unreachable!(),
        };
        assert_eq!(ip_to_string(IpAddress::V6(v)), std_v6_text(v), "{s}");
    }
    // A spread of pseudo-random addresses with zero groups sprinkled in.
    let mut x: u128 = 0x1234_5678_9abc_def0_0fed_cba9_8765_4321;
    for _ in 0..2000 {
        x = x.wrapping_mul(0x2545_F491_4F6C_DD1D).wrapping_add(0x9E37_79B9);
        let mut v = x;
        for g in 0..8 {
            if (x >> (g * 3)) & 1 == 0 {
                v &= !(0xffffu128 << (16 * g));
            }
        }
        assert_eq!(ip_to_string(IpAddress::V6(v)), std_v6_text(v));
    }
}

#[test]
fn ipv4_text_matches_std() {
    for a in [0u32, 1, 0x7f000001, 0xc0a80101, 0xffffffff, 0x0a000000, 0x01020304] {
        let text = ipnetwork::Ipv4Network::new(a.into(), 32).unwrap().ip().to_string();
        assert_eq!(ip_to_string(IpAddress::V4(a)), text);
    }
}

#[test]
fn network_label_for_ipv6_range() {
    let t = parse_target("2001:db8::/126").unwrap();
    assert_eq!(t.display_label(), "2001:db8::/126 (4 hosts)");
    assert_eq!(ip_to_string(t.addrs[3]), "2001:db8::3");
}

#[test]
fn resolved_address_prefers_ipv4() {
    let v6 = ip("2001:db8::1");
    let v4 = ip("192.0.2.7");
    assert_eq!(pick_resolved_address(&vec![v6, v4]), Some(v4));
    assert_eq!(pick_resolved_address(&vec![v6]), Some(v6));
    assert_eq!(pick_resolved_address(&vec![]), None);
    assert_eq!(pick_resolved_address(&vec![v4, v6]), Some(v4));
}

#[test]
fn multi_host_only_for_several_addresses() {
    assert!(parse_target("10.0.0.0/31").unwrap().is_multi_host());
    assert!(!parse_target("10.0.0.0/32").unwrap().is_multi_host());
    assert!(!parse_target("example.net").unwrap().is_multi_host());
}

#[test]
fn cidr_target_from_parsed_network() {
    let t = rustscan_rs::targets::cidr_target(
        "10.0.0.0/30",
        Network::V4 { addr: 0x0a00_0000, prefix: 30 },
    )
    .unwrap();
    assert_eq!(t.addrs.len(), 4);
    assert_eq!(t.addrs[3], IpAddress::V4(0x0a00_0003));
    match rustscan_rs::targets::cidr_target("big", Network::V4 { addr: 0, prefix: 8 }) {
        Err(RustScanError::CidrTooLarge { input, count, .. }) => {
            assert_eq!(input, "big");
            assert_eq!(count, 16_777_216);
        }
        other => panic!("unexpected {other:?}"),
    }
}

#[test]
fn large_ranges_are_flagged() {
    assert!(parse_target("10.0.0.0/23").unwrap().is_large_range());
    assert!(!parse_target("10.0.0.0/24").unwrap().is_large_range());
    assert!(!parse_target("10.0.0.1").unwrap().is_large_range());
}

#[test]
fn test_invalid_cidr_rejected() {
    let err = parse_target("192.168.1.0/35").unwrap_err();
    assert!(matches!(err, RustScanError::InvalidCidr { .. }));
    assert!(err.message().contains("invalid CIDR notation '192.168.1.0/35'"));
}

#[test]
fn parsed_address_becomes_single_target() {
    let t = address_target("10.1.2.3", Some(Network::V4 { addr: 0x0a01_0203, prefix: 32 }));
    assert_eq!(t.spec, "10.1.2.3");
    assert_eq!(t.kind, TargetKind::Single(IpAddress::V4(0x0a01_0203)));
    assert_eq!(t.addrs, vec![IpAddress::V4(0x0a01_0203)]);
    let t = address_target("::1", Some(Network::V6 { addr: 1, prefix: 128 }));
    assert_eq!(t.kind, TargetKind::Single(IpAddress::V6(1)));
}

#[test]
fn unparsed_text_becomes_hostname_target() {
    let t = address_target("scanme.example", None);
    assert_eq!(t.spec, "scanme.example");
    assert_eq!(t.kind, TargetKind::Hostname("scanme.example".to_string()));
    assert!(t.addrs.is_empty());
}
