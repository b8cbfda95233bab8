use netkit::endpoint::{host_text, reverse_resolve_numeric, service_text, Endpoint};
use netkit::resolver::{
    check_resolve_input, effective_hints, gai_error_kind, has_nul, record_family, AddrFamily,
    AddrInfo, AddrInfoHints, Protocol, ResultSequence, SockType,
};
use netkit::ErrorKind;

#[test]
fn test_getaddrinfo_missing_host_and_service() {
    // WHEN
    let result = check_resolve_input(None, None);
    // THEN
    assert!(result.is_err());
    assert_eq!(result.unwrap_err(), ErrorKind::InvalidInput);
}

#[test]
fn test_resolve_input_interior_nul_is_invalid() {
    assert_eq!(
        check_resolve_input(Some(b"local\0host"), None).unwrap_err(),
        ErrorKind::InvalidInput
    );
    assert_eq!(
        check_resolve_input(Some(b"localhost"), Some(b"ht\0tp")).unwrap_err(),
        ErrorKind::InvalidInput
    );
    assert!(check_resolve_input(Some(b"localhost"), Some(b"http")).is_ok());
    assert!(check_resolve_input(None, Some(b"http")).is_ok());
    assert!(check_resolve_input(Some(b"localhost"), None).is_ok());
}

#[test]
fn test_has_nul() {
    assert!(has_nul(b"a\0b"));
    assert!(has_nul(b"\0"));
    assert!(!has_nul(b"ab"));
    assert!(!has_nul(b""));
}

#[test]
fn test_getnameinfo_ipv4_no_resolve() {
    let e = Endpoint::v4(127, 0, 0, 1, 80);
    let (host, service) = reverse_resolve_numeric(&e);
    assert_eq!(String::from_utf8(host).unwrap(), "127.0.0.1");
    assert_eq!(String::from_utf8(service).unwrap(), "80");
}

#[test]
fn test_getnameinfo_ipv6_no_resolve() {
    let e = Endpoint::v6(vec![0, 0, 0, 0, 0, 0, 0, 1], 443);
    let (host, service) = reverse_resolve_numeric(&e);
    assert_eq!(String::from_utf8(host).unwrap(), "::1");
    assert_eq!(String::from_utf8(service).unwrap(), "443");
}

#[test]
fn test_ipv6_text_compression() {
    // The longest zero run is shortened; on a tie the leftmost wins; a
    // single zero segment is written out.
    let cases: [(Vec<u16>, &str); 6] = [
        (vec![0x2001, 0xdb8, 0, 0, 0, 0, 0, 1], "2001:db8::1"),
        (vec![0, 0, 0, 0, 0, 0, 0, 0], "::"),
        (vec![0x2001, 0xdb8, 0, 1, 1, 1, 1, 1], "2001:db8:0:1:1:1:1:1"),
        (vec![0x2001, 0, 0, 1, 0, 0, 0, 1], "2001:0:0:1::1"),
        (vec![0, 0, 1, 0, 0, 1, 0, 0], "::1:0:0:1:0:0"),
        (vec![0xfe80, 0, 0, 0, 0x1ff, 0xfe23, 0x4567, 0x890a], "fe80::1ff:fe23:4567:890a"),
    ];
    for (segments, expected) in cases {
        let e = Endpoint::v6(segments, 0);
        assert_eq!(String::from_utf8(host_text(&e)).unwrap(), expected);
    }
}

#[test]
fn test_ipv4_text_octets() {
    let e = Endpoint::v4(8, 8, 4, 4, 53);
    assert_eq!(String::from_utf8(host_text(&e)).unwrap(), "8.8.4.4");
    assert_eq!(String::from_utf8(service_text(&e)).unwrap(), "53");
    let e = Endpoint::v4(255, 255, 255, 255, 65535);
    assert_eq!(String::from_utf8(host_text(&e)).unwrap(), "255.255.255.255");
    assert_eq!(String::from_utf8(service_text(&e)).unwrap(), "65535");
    let e = Endpoint::v4(0, 0, 0, 0, 0);
    assert_eq!(String::from_utf8(host_text(&e)).unwrap(), "0.0.0.0");
    assert_eq!(String::from_utf8(service_text(&e)).unwrap(), "0");
}

#[test]
fn test_family_numeric_roundtrip() {
    for f in [AddrFamily::Unspecified, AddrFamily::Inet, AddrFamily::Inet6] {
        assert_eq!(AddrFamily::from_numeric(f.to_numeric()), Some(f));
    }
    assert_eq!(AddrFamily::from_numeric(7), None);
    assert_eq!(AddrFamily::Inet.to_numeric(), 2);
    assert_eq!(AddrFamily::Inet6.to_numeric(), 10);
}

#[test]
fn test_socktype_numeric_roundtrip() {
    for t in [
        SockType::Unspecified,
        SockType::Stream,
        SockType::Datagram,
        SockType::Raw,
        SockType::SeqPacket,
    ] {
        assert_eq!(SockType::from_numeric(t.to_numeric()), Some(t));
    }
    assert_eq!(SockType::Stream.to_numeric(), 1);
    assert_eq!(SockType::from_numeric(4), None);
}

#[test]
fn test_protocol_numeric_roundtrip() {
    for p in [Protocol::Unspecified, Protocol::Tcp, Protocol::Udp, Protocol::Sctp] {
        assert_eq!(Protocol::from_numeric(p.to_numeric()), Some(p));
    }
    assert_eq!(Protocol::Tcp.to_numeric(), 6);
    assert_eq!(Protocol::Udp.to_numeric(), 17);
    assert_eq!(Protocol::from_numeric(99), None);
}

#[test]
fn test_default_hints_are_all_unspecified() {
    let h = AddrInfoHints::default();
    assert_eq!(h.flags, 0);
    assert_eq!(h.family, AddrFamily::Unspecified);
    assert_eq!(h.socktype, SockType::Unspecified);
    assert_eq!(h.protocol, Protocol::Unspecified);
    assert_eq!(effective_hints(None), h);
    let custom = AddrInfoHints::new(3, AddrFamily::Inet, SockType::Stream, Protocol::Tcp);
    assert_eq!(effective_hints(Some(custom)), custom);
}

#[test]
fn test_gai_error_kind() {
    assert_eq!(gai_error_kind(-11), ErrorKind::Io);
    assert_eq!(gai_error_kind(-2), ErrorKind::Other);
    assert_eq!(gai_error_kind(1), ErrorKind::Other);
}

#[test]
fn test_record_family_supported() {
    assert_eq!(record_family(2), Ok(AddrFamily::Inet));
    assert_eq!(record_family(10), Ok(AddrFamily::Inet6));
    assert_eq!(record_family(1), Err(ErrorKind::Unsupported));
    assert_eq!(record_family(0), Err(ErrorKind::Unsupported));
}

fn sample_record(port: u16) -> AddrInfo {
    AddrInfo {
        flags: 0,
        family: AddrFamily::Inet,
        socktype: SockType::Stream,
        protocol: Protocol::Tcp,
        socket_addr: Endpoint::v4(127, 0, 0, 1, port),
        canonname: None,
    }
}

#[test]
fn test_result_sequence_is_ordered_and_fused() {
    let items = vec![
        Ok(sample_record(80)),
        Err(ErrorKind::Unsupported),
        Ok(sample_record(443)),
    ];
    let mut seq = ResultSequence::new(items.clone());
    assert_eq!(seq.len(), 3);
    assert_eq!(seq.next(), Some(items[0].clone()));
    assert_eq!(seq.next(), Some(Err(ErrorKind::Unsupported)));
    assert_eq!(seq.next(), Some(items[2].clone()));
    assert_eq!(seq.next(), None);
    assert_eq!(seq.next(), None); // fused: polling past the end stays empty
    assert_eq!(seq.len(), 0);
}
