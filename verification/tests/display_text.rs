use hostent::{
    addr_text, display, format_entry, ipv4_text, ipv6_text, text_or_placeholder, HostRecord,
    IpAddr, Ipv4Addr, Ipv6Addr,
};

fn v6(octets: [u8; 16]) -> String {
    ipv6_text(&Ipv6Addr::new(octets))
}

#[test]
fn ipv4_dotted_decimal() {
    assert_eq!(ipv4_text(&Ipv4Addr::new([0, 0, 0, 0])).as_str(), "0.0.0.0");
    assert_eq!(
        ipv4_text(&Ipv4Addr::new([255, 255, 255, 255])).as_str(),
        "255.255.255.255"
    );
    assert_eq!(ipv4_text(&Ipv4Addr::new([192, 0, 2, 1])).as_str(), "192.0.2.1");
    assert_eq!(ipv4_text(&Ipv4Addr::new([10, 0, 42, 107])).as_str(), "10.0.42.107");
}

#[test]
fn ipv6_all_zero_is_double_colon() {
    assert_eq!(v6([0; 16]).as_str(), "::");
}

#[test]
fn ipv6_loopback() {
    let mut o = [0u8; 16];
    o[15] = 1;
    assert_eq!(v6(o).as_str(), "::1");
}

#[test]
fn ipv6_documentation_address() {
    let mut o = [0u8; 16];
    o[0] = 0x20;
    o[1] = 0x01;
    o[2] = 0x0d;
    o[3] = 0xb8;
    o[15] = 0x01;
    assert_eq!(v6(o).as_str(), "2001:db8::1");
}

#[test]
fn ipv6_no_zero_run_uses_all_groups() {
    let o = [0u8, 1, 0, 2, 0, 3, 0, 4, 0, 5, 0, 6, 0, 7, 0, 8];
    assert_eq!(v6(o).as_str(), "1:2:3:4:5:6:7:8");
}

#[test]
fn ipv6_single_zero_group_is_not_compressed() {
    let o = [0u8, 1, 0, 2, 0, 3, 0, 4, 0, 5, 0, 0, 0, 7, 0, 8];
    assert_eq!(v6(o).as_str(), "1:2:3:4:5:0:7:8");
}

#[test]
fn ipv6_longest_run_wins() {
    // A run of two at group 1 and a run of three at group 4.
    let o = [0u8, 1, 0, 0, 0, 0, 0, 1, 0, 0, 0, 0, 0, 0, 0, 1];
    assert_eq!(v6(o).as_str(), "1:0:0:1::1");
}

#[test]
fn ipv6_leftmost_run_wins_ties() {
    let o = [0u8, 1, 0, 0, 0, 0, 0, 1, 0, 0, 0, 0, 0, 1, 0, 1];
    assert_eq!(v6(o).as_str(), "1::1:0:0:1:1");
}

#[test]
fn ipv6_v4_mapped_mixed_notation() {
    let o = [0u8, 0, 0, 0, 0, 0, 0, 0, 0, 0, 0xff, 0xff, 192, 0, 2, 1];
    assert_eq!(v6(o).as_str(), "::ffff:192.0.2.1");
}

#[test]
fn ipv6_lowercase_hex_without_leading_zeros() {
    let o = [0xfeu8, 0x80, 0, 0, 0, 0, 0, 0, 0x02, 0x1b, 0x63, 0xff, 0xfe, 0xab, 0x00, 0x0f];
    assert_eq!(v6(o).as_str(), "fe80::21b:63ff:feab:f");
}

#[test]
fn ipv4_digit_count_boundaries() {
    assert_eq!(ipv4_text(&Ipv4Addr::new([9, 10, 99, 100])).as_str(), "9.10.99.100");
}

#[test]
fn ipv6_hex_digit_count_boundaries() {
    let o = [0x00u8, 0x10, 0x01, 0x00, 0x10, 0x00, 0, 1, 0, 0, 0, 0, 0, 0, 0, 0];
    assert_eq!(v6(o).as_str(), "10:100:1000:1::");
}

#[test]
fn placeholder_for_invalid_text() {
    assert_eq!(text_or_placeholder(&vec![0xff, 0xfe]).as_str(), "<not utf8>");
    assert_eq!(text_or_placeholder(&b"plain".to_vec()).as_str(), "plain");
}

#[test]
fn addr_text_follows_family() {
    assert_eq!(
        addr_text(&IpAddr::V4(Ipv4Addr::new([127, 0, 0, 1]))).as_str(),
        "127.0.0.1"
    );
    let mut o = [0u8; 16];
    o[15] = 1;
    assert_eq!(addr_text(&IpAddr::V6(Ipv6Addr::new(o))).as_str(), "::1");
}

#[test]
fn entry_format_is_exact() {
    let name = b"example.com".to_vec();
    let mut o = [0u8; 16];
    o[0] = 0x20;
    o[1] = 0x01;
    o[2] = 0x0d;
    o[3] = 0xb8;
    o[15] = 0x01;
    let addrs = vec![
        IpAddr::V4(Ipv4Addr::new([192, 0, 2, 1])),
        IpAddr::V6(Ipv6Addr::new(o)),
    ];
    let aliases = vec![b"example".to_vec()];
    let rendered = format_entry(&name, &addrs, &aliases);
    assert_eq!(
        rendered.as_str(),
        "Hostname: example.com, Addresses: [192.0.2.1, 2001:db8::1], Aliases: [example]"
    );
}

#[test]
fn record_display_is_exact() {
    let rec = HostRecord {
        name: b"example.com".to_vec(),
        addrtype: 2,
        addr_list: vec![Some(vec![192, 0, 2, 1]), Some(vec![10, 1, 2, 3]), None],
        alias_list: vec![Some(b"example".to_vec()), Some(vec![0xff]), None],
    };
    assert_eq!(
        display(&rec).as_str(),
        "Hostname: example.com, Addresses: [192.0.2.1, 10.1.2.3], Aliases: [example, <not utf8>]"
    );
}

#[test]
fn record_display_empty_lists() {
    let rec = HostRecord {
        name: b"bare".to_vec(),
        addrtype: 99,
        addr_list: vec![Some(vec![1, 2, 3]), None],
        alias_list: vec![None],
    };
    assert_eq!(
        display(&rec).as_str(),
        "Hostname: bare, Addresses: [], Aliases: []"
    );
}
