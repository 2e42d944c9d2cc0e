use hostent::{
    address_family, ip_address_from_bytes, AddressFamily, HasHostent, HostRecord,
    HostentBorrowed, HostentOwned, IpAddr,
};

fn record(
    name: &str,
    addrtype: i32,
    addrs: Vec<Option<Vec<u8>>>,
    aliases: Vec<Option<Vec<u8>>>,
) -> HostRecord {
    HostRecord {
        name: name.as_bytes().to_vec(),
        addrtype,
        addr_list: addrs,
        alias_list: aliases,
    }
}

#[test]
fn family_mapping() {
    assert_eq!(address_family(libc::AF_INET), Some(AddressFamily::Inet));
    assert_eq!(address_family(libc::AF_INET6), Some(AddressFamily::Inet6));
    assert_eq!(address_family(2), Some(AddressFamily::Inet));
    assert_eq!(address_family(10), Some(AddressFamily::Inet6));
    assert_eq!(address_family(0), None);
    assert_eq!(address_family(-1), None);
    assert_eq!(address_family(23), None);
}

#[test]
fn decode_v4_bytes() {
    let buf = vec![192u8, 0, 2, 1];
    let a = ip_address_from_bytes(Some(AddressFamily::Inet), &buf);
    match a {
        Some(IpAddr::V4(v4)) => assert_eq!(v4.octets(), [192, 0, 2, 1]),
        _ => panic!("expected an IPv4 address"),
    }
}

#[test]
fn decode_v6_preserves_byte_order() {
    let buf: Vec<u8> = (1u8..=16).collect();
    let a = ip_address_from_bytes(Some(AddressFamily::Inet6), &buf);
    match a {
        Some(IpAddr::V6(v6)) => {
            let octets = v6.octets();
            for (i, b) in octets.iter().enumerate() {
                assert_eq!(*b, (i + 1) as u8);
            }
        }
        _ => panic!("expected an IPv6 address"),
    }
}

#[test]
fn decode_unrecognized_family_yields_nothing() {
    let buf = vec![1u8, 2, 3, 4];
    assert!(ip_address_from_bytes(None, &buf).is_none());
}

#[test]
fn null_headed_address_list_is_empty() {
    let rec = record("h", 2, vec![None], vec![None]);
    let entry = HostentBorrowed::new(&rec);
    let mut it = entry.addresses();
    assert!(it.next().is_none());
    assert!(it.next().is_none());
    assert!(entry.addresses().into_vec().is_empty());
}

#[test]
fn v4_addresses_in_order() {
    let rec = record(
        "h",
        2,
        vec![
            Some(vec![192, 0, 2, 1]),
            Some(vec![10, 0, 0, 7]),
            Some(vec![127, 0, 0, 1]),
            None,
        ],
        vec![None],
    );
    let entry = HostentBorrowed::new(&rec);
    let got = entry.addresses().into_vec();
    assert_eq!(got.len(), 3);
    let expected = [[192u8, 0, 2, 1], [10, 0, 0, 7], [127, 0, 0, 1]];
    for (a, want) in got.iter().zip(expected.iter()) {
        match a {
            IpAddr::V4(v4) => assert_eq!(&v4.octets(), want),
            _ => panic!("expected IPv4"),
        }
    }
}

#[test]
fn v6_addresses_preserve_byte_order() {
    let bytes: Vec<u8> = vec![
        0x20, 0x01, 0x0d, 0xb8, 0, 0, 0, 0, 0, 0, 0, 0, 0, 0, 0, 0x01,
    ];
    let rec = record("h", 10, vec![Some(bytes.clone()), None], vec![None]);
    let entry = HostentBorrowed::new(&rec);
    let got = entry.addresses().into_vec();
    assert_eq!(got.len(), 1);
    match &got[0] {
        IpAddr::V6(v6) => assert_eq!(v6.octets().to_vec(), bytes),
        _ => panic!("expected IPv6"),
    }
}

#[test]
fn unrecognized_family_yields_zero_values_and_terminates() {
    let rec = record(
        "h",
        99,
        vec![Some(vec![1, 2, 3, 4]), Some(vec![5, 6, 7, 8]), None],
        vec![None],
    );
    let entry = HostentBorrowed::new(&rec);
    assert!(entry.addresses().into_vec().is_empty());
    // The cursor still advances past non-null slots even though no value
    // comes out of them.
    let mut it = entry.addresses();
    assert!(it.next().is_none());
    assert!(it.next().is_none());
    assert!(it.next().is_none());
    assert!(it.next().is_none());
}

#[test]
fn alias_traversal_stops_at_first_null() {
    let rec = record(
        "h",
        2,
        vec![None],
        vec![
            Some(b"alpha".to_vec()),
            Some(b"beta".to_vec()),
            None,
            Some(b"gamma".to_vec()),
        ],
    );
    let entry = HostentBorrowed::new(&rec);
    let got = entry.aliases().into_vec();
    assert_eq!(got, vec![b"alpha".to_vec(), b"beta".to_vec()]);
    let mut it = entry.aliases();
    assert_eq!(it.next().map(|v| v.clone()), Some(b"alpha".to_vec()));
    assert_eq!(it.next().map(|v| v.clone()), Some(b"beta".to_vec()));
    assert!(it.next().is_none());
    assert!(it.next().is_none());
}

#[test]
fn zero_aliases_yield_empty_sequence() {
    let rec = record("h", 2, vec![None], vec![None]);
    let entry = HostentBorrowed::new(&rec);
    assert!(entry.aliases().into_vec().is_empty());
}

#[test]
fn hostname_is_exposed() {
    let rec = record("example.com", 2, vec![None], vec![None]);
    let entry = HostentBorrowed::new(&rec);
    assert_eq!(entry.hostname().as_slice(), b"example.com");
}

#[test]
fn owned_and_borrowed_expose_identical_views() {
    let addrs = vec![Some(vec![192, 0, 2, 1]), None];
    let aliases = vec![Some(b"example".to_vec()), None];
    let rec_a = record("example.com", 2, addrs.clone(), aliases.clone());
    let rec_b = record("example.com", 2, addrs, aliases);

    let owned = HostentOwned::new(rec_a);
    let borrowed = HostentBorrowed::new(&rec_b);

    assert_eq!((&owned).hostname(), borrowed.hostname());
    assert_eq!(
        (&owned).addresses().into_vec(),
        borrowed.addresses().into_vec()
    );
    assert_eq!(
        (&owned).aliases().into_vec(),
        borrowed.aliases().into_vec()
    );
    assert_eq!(
        owned.to_display_string(),
        borrowed.to_display_string()
    );
}

#[test]
fn hostent_method_returns_the_record() {
    let rec = record("r", 10, vec![None], vec![None]);
    let entry = HostentBorrowed::new(&rec);
    assert_eq!(entry.hostent().addrtype, 10);
    assert_eq!(entry.hostent().name.as_slice(), b"r");
}
