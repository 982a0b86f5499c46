use nginx_loki::ip_filter::{masked, IpAddress, IpFamily, IpMatcher, IpMatcherError};

#[test]
fn matches_exact_ipv4_and_ipv6() {
    assert!(IpMatcher::parse("192.168.1.10")
        .unwrap()
        .matches("192.168.1.10".parse().unwrap()));
    assert!(IpMatcher::parse("2001:db8::1")
        .unwrap()
        .matches("2001:db8::1".parse().unwrap()));
}

#[test]
fn matches_cidr() {
    assert!(IpMatcher::parse("192.168.1.0/24")
        .unwrap()
        .matches("192.168.1.42".parse().unwrap()));
    assert!(IpMatcher::parse("2001:db8::/32")
        .unwrap()
        .matches("2001:db8:1::1".parse().unwrap()));
}

#[test]
fn matches_ipv6_range() {
    let matcher = IpMatcher::parse("2001:db8::10-2001:db8::20").unwrap();
    assert!(matcher.matches("2001:db8::15".parse().unwrap()));
    assert!(!matcher.matches("2001:db8::21".parse().unwrap()));
}

#[test]
fn matches_ipv4_range() {
    let matcher = IpMatcher::parse("192.168.1.10-192.168.1.20").unwrap();
    assert!(matcher.matches("192.168.1.15".parse().unwrap()));
    assert!(!matcher.matches("192.168.1.21".parse().unwrap()));
    assert!(!matcher.matches("2001:db8::15".parse().unwrap()));
}

#[test]
fn matches_ipv6_prefix() {
    let matcher = IpMatcher::parse("2001:db8:abcd::").unwrap();
    assert!(matcher.matches("2001:db8:abcd:1::1".parse().unwrap()));
    assert!(!matcher.matches("2001:db8:abce::1".parse().unwrap()));
}

#[test]
fn parses_cidr_to_masked_network() {
    let matcher = IpMatcher::parse("192.168.1.77/24").unwrap();
    assert_eq!(
        matcher,
        IpMatcher::Cidr { family: IpFamily::V4, network: 0xC0A8_0100, prefix_len: 24 }
    );
}

#[test]
fn parses_ipv6_prefix_length_from_groups() {
    let matcher = IpMatcher::parse("2001:db8:abcd::").unwrap();
    assert_eq!(
        matcher,
        IpMatcher::Ipv6Prefix { network: 0x2001_0db8_abcd_u128 << 80, prefix_len: 48 }
    );
    assert_eq!(
        IpMatcher::parse("::").unwrap(),
        IpMatcher::Ipv6Prefix { network: 0, prefix_len: 0 }
    );
}

#[test]
fn exact_matcher_holds_the_address() {
    assert_eq!(
        IpMatcher::parse("10.0.0.1").unwrap(),
        IpMatcher::Exact(IpAddress::V4(0x0A00_0001))
    );
    assert!(!IpMatcher::parse("10.0.0.1").unwrap().matches("10.0.0.2".parse().unwrap()));
}

#[test]
fn rejects_invalid_matchers() {
    assert!(matches!(IpMatcher::parse("not an ip"), Err(IpMatcherError::Invalid(s)) if s == "not an ip"));
    assert!(matches!(IpMatcher::parse("x.y/24"), Err(IpMatcherError::Invalid(_))));
    assert!(matches!(IpMatcher::parse("10.0.0.0/33"), Err(IpMatcherError::InvalidCidrPrefix(s)) if s == "10.0.0.0/33"));
    assert!(matches!(IpMatcher::parse("10.0.0.0/abc"), Err(IpMatcherError::InvalidCidrPrefix(_))));
    assert!(matches!(IpMatcher::parse("::/129"), Err(IpMatcherError::InvalidCidrPrefix(_))));
    assert!(matches!(IpMatcher::parse("10.0.0.9-10.0.0.1"), Err(IpMatcherError::InvalidRange(_))));
    assert!(matches!(IpMatcher::parse("10.0.0.1-::1"), Err(IpMatcherError::MixedRangeFamilies(_))));
    assert!(matches!(IpMatcher::parse("10.0.0.1-zzz"), Err(IpMatcherError::Invalid(_))));
    assert!(matches!(IpMatcher::parse("zz::"), Err(IpMatcherError::Invalid(_))));
}

#[test]
fn error_messages_name_the_input() {
    let e = IpMatcher::parse("10.0.0.9-10.0.0.1").unwrap_err();
    assert_eq!(e.message(), "IP range start is greater than end in \"10.0.0.9-10.0.0.1\"");
    let e = IpMatcher::parse("1.2.3.4/33").unwrap_err();
    assert_eq!(e.message(), "invalid CIDR prefix length in \"1.2.3.4/33\"");
    let e = IpMatcher::parse("1.2.3.4-::1").unwrap_err();
    assert_eq!(e.message(), "IP range mixes IPv4 and IPv6 in \"1.2.3.4-::1\"");
    let e = IpMatcher::parse("tab\there").unwrap_err();
    assert_eq!(e.message(), "invalid IP matcher \"tab\\there\"");
}

#[test]
fn cidr_with_zero_prefix_matches_whole_family() {
    let v4 = IpMatcher::parse("1.2.3.4/0").unwrap();
    assert!(v4.matches("255.255.255.255".parse().unwrap()));
    assert!(v4.matches("0.0.0.0".parse().unwrap()));
    assert!(!v4.matches("::1".parse().unwrap()));
    let v6 = IpMatcher::parse("::1/0").unwrap();
    assert!(v6.matches("ffff::1".parse().unwrap()));
    assert!(!v6.matches("8.8.8.8".parse().unwrap()));
}

#[test]
fn cidr_covers_its_network_and_written_address() {
    let m = IpMatcher::parse("10.20.30.40/12").unwrap();
    assert!(m.matches("10.20.30.40".parse().unwrap()));
    assert!(m.matches("10.16.0.0".parse().unwrap()));
    assert!(m.matches("10.31.255.255".parse().unwrap()));
    assert!(!m.matches("10.32.0.0".parse().unwrap()));
}

#[test]
fn nested_prefixes_agree() {
    let a: u128 = 0xC0A8_0101;
    let b: u128 = 0xC0A8_01FE;
    assert_eq!(masked(a, 24, 32), masked(b, 24, 32));
    assert_eq!(masked(a, 16, 32), masked(b, 16, 32));
    assert_eq!(masked(a, 8, 32), masked(b, 8, 32));
}

#[test]
fn range_covers_its_end_points() {
    let m = IpMatcher::parse("192.168.1.10-192.168.1.20").unwrap();
    assert!(m.matches("192.168.1.10".parse().unwrap()));
    assert!(m.matches("192.168.1.20".parse().unwrap()));
    assert!(!m.matches("192.168.1.9".parse().unwrap()));
}

#[test]
fn masked_clears_host_bits() {
    assert_eq!(masked(0xC0A8_012A, 24, 32), 0xC0A8_0100);
    assert_eq!(masked(0xC0A8_012A, 32, 32), 0xC0A8_012A);
    assert_eq!(masked(u128::MAX, 0, 128), 0);
    assert_eq!(masked(u128::MAX, 1, 128), 1u128 << 127);
    assert_eq!(masked(u128::MAX, 128, 128), u128::MAX);
}

#[test]
fn parses_addresses_of_both_families() {
    assert_eq!(IpAddress::parse("1.2.3.4"), Some(IpAddress::V4(0x0102_0304)));
    assert_eq!(IpAddress::parse("::1"), Some(IpAddress::V6(1)));
    assert_eq!(IpAddress::parse("1.2.3"), None);
}

#[test]
fn parsed_matchers_are_well_built() {
    match IpMatcher::parse("10.1.2.3/8").unwrap() {
        IpMatcher::Cidr { network, prefix_len, .. } => {
            assert_eq!(prefix_len, 8);
            assert_eq!(network, 0x0a00_0000);
        }
        other => panic!("unexpected {:?}", other),
    }
    match IpMatcher::parse("2001:db8:abcd::").unwrap() {
        IpMatcher::Ipv6Prefix { network, prefix_len } => {
            assert_eq!(prefix_len, 48);
            assert_eq!(network, 0x2001_0db8_abcd_u128 << 80);
        }
        other => panic!("unexpected {:?}", other),
    }
}

#[test]
fn oversized_prefix_of_the_other_family_does_not_match() {
    let m = IpMatcher::Cidr { family: IpFamily::V4, network: 0, prefix_len: 40 };
    assert!(!m.matches("::1".parse().unwrap()));
    let m = IpMatcher::Ipv6Prefix { network: 0, prefix_len: 200 };
    assert!(!m.matches("10.0.0.1".parse().unwrap()));
}
