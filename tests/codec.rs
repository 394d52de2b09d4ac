use quic_socks::text::{format_ipv4, format_ipv6, push_decimal, push_hex_pair};
use quic_socks::wire::{
    decode_greeting, decode_request, encode_request, greeting_reply, port_from_bytes,
    success_reply, ConnectionType, Decoded, NameType, Socks5Error,
};

fn complete(d: Decoded<quic_socks::wire::Socks5>) -> quic_socks::wire::Socks5 {
    match d {
        Decoded::Complete(s) => s,
        Decoded::Need(n) => panic!("needs {} bytes", n),
        Decoded::Malformed(e) => panic!("malformed: {:?}", e),
    }
}

fn malformed<T>(d: Decoded<T>) -> Socks5Error {
    match d {
        Decoded::Malformed(e) => e,
        _ => panic!("expected a malformed message"),
    }
}

fn need<T>(d: Decoded<T>) -> usize {
    match d {
        Decoded::Need(n) => n,
        _ => panic!("expected an incomplete message"),
    }
}

#[test]
fn ipv4_request_decodes_to_dotted_text() {
    let s = complete(decode_request(&[5, 1, 0, 1, 1, 2, 3, 4, 0x1f, 0x90]));
    assert_eq!(s.get_conn_type(), ConnectionType::TCP);
    assert_eq!(s.get_target(), "1.2.3.4");
    assert_eq!(s.get_port(), 8080);
}

#[test]
fn ipv4_text_of_large_and_zero_bytes() {
    assert_eq!(format_ipv4(&[255, 0, 10, 199]), "255.0.10.199");
    assert_eq!(format_ipv4(&[93, 184, 216, 34]), "93.184.216.34");
}

#[test]
fn ipv6_request_decodes_to_hex_groups() {
    let mut b = vec![5, 3, 0, 4];
    b.extend_from_slice(&[0x20, 0x01, 0x0d, 0xb8, 0, 0, 0, 0, 0, 0, 0, 0, 0, 0, 0, 0x01]);
    b.extend_from_slice(&[0x01, 0xbb]);
    let s = complete(decode_request(&b));
    assert_eq!(s.get_conn_type(), ConnectionType::UDP);
    assert_eq!(s.get_target(), "2001:0db8:0000:0000:0000:0000:0000:0001");
    assert_eq!(s.get_port(), 443);
}

#[test]
fn ipv6_text_keeps_leading_zeros() {
    let a = [0xfe, 0x80, 0, 0, 0, 0, 0, 0, 0x0a, 0x0b, 0, 0, 0xff, 0xff, 0x12, 0x34];
    assert_eq!(format_ipv6(&a), "fe80:0000:0000:0000:0a0b:0000:ffff:1234");
}

#[test]
fn domain_request_decodes_example_com() {
    let mut b = vec![5, 1, 0, 3, 11];
    b.extend_from_slice(b"example.com");
    b.extend_from_slice(&[0x00, 0x50]);
    let s = complete(decode_request(&b));
    assert_eq!(s.get_target(), "example.com");
    assert_eq!(s.get_port(), 80);
    assert_eq!(s.get_conn_type(), ConnectionType::TCP);
}

#[test]
fn domain_with_bad_utf8_is_rejected_before_port() {
    let b = [5, 1, 0, 3, 2, 0xff, 0xfe];
    assert_eq!(malformed(decode_request(&b)), Socks5Error::InvalidDomain);
}

#[test]
fn unknown_address_types_are_rejected() {
    for atyp in [0u8, 2, 5, 6, 0x7f, 0xff] {
        assert_eq!(malformed(decode_request(&[5, 1, 0, atyp])), Socks5Error::InvalidAddressType);
    }
}

#[test]
fn unknown_commands_are_rejected_on_the_header() {
    for cmd in [0u8, 2, 4, 0xff] {
        assert_eq!(malformed(decode_request(&[5, cmd, 0, 1])), Socks5Error::InvalidCommand);
        let with_address = [5, cmd, 0, 1, 1, 2, 3, 4, 0, 80];
        assert_eq!(malformed(decode_request(&with_address)), Socks5Error::InvalidCommand);
    }
}

#[test]
fn request_without_version_is_rejected() {
    assert_eq!(malformed(decode_request(&[4, 1, 0, 1])), Socks5Error::NotSocks5);
}

#[test]
fn incomplete_requests_ask_for_what_is_missing() {
    assert_eq!(need(decode_request(&[])), 4);
    assert_eq!(need(decode_request(&[5, 1, 0])), 4);
    assert_eq!(need(decode_request(&[5, 1, 0, 1])), 10);
    assert_eq!(need(decode_request(&[5, 1, 0, 4, 1])), 22);
    assert_eq!(need(decode_request(&[5, 1, 0, 3])), 5);
    assert_eq!(need(decode_request(&[5, 1, 0, 3, 3])), 8);
    assert_eq!(need(decode_request(&[5, 1, 0, 3, 3, b'a', b'b', b'c'])), 10);
}

#[test]
fn greeting_decodes() {
    assert_eq!(need(decode_greeting(&[])), 2);
    assert_eq!(need(decode_greeting(&[5, 2, 0])), 4);
    match decode_greeting(&[5, 2, 0, 2]) {
        Decoded::Complete(n) => assert_eq!(n, 4),
        _ => panic!("expected a complete greeting"),
    }
    match decode_greeting(&[5, 0]) {
        Decoded::Complete(n) => assert_eq!(n, 2),
        _ => panic!("expected a complete greeting"),
    }
    assert_eq!(malformed(decode_greeting(&[4, 1])), Socks5Error::NotSocks5);
}

#[test]
fn fixed_replies() {
    assert_eq!(greeting_reply(), vec![5, 0]);
    assert_eq!(success_reply(), vec![5, 0, 0, 1, 0, 0, 0, 0, 0, 0]);
}

#[test]
fn ports_are_big_endian() {
    assert_eq!(port_from_bytes(0x00, 0x50), 80);
    assert_eq!(port_from_bytes(0x01, 0x00), 256);
    assert_eq!(port_from_bytes(0xff, 0xff), 65535);
}

#[test]
fn encoded_requests_decode_back() {
    let b = encode_request(ConnectionType::UDP, NameType::DOMAIN, b"example.com", 80);
    let mut expected = vec![5, 3, 0, 3, 11];
    expected.extend_from_slice(b"example.com");
    expected.extend_from_slice(&[0, 80]);
    assert_eq!(b, expected);
    let s = complete(decode_request(&b));
    assert_eq!(s.get_target(), "example.com");
    assert_eq!(s.get_conn_type(), ConnectionType::UDP);

    let b = encode_request(ConnectionType::TCP, NameType::IPV4, &[10, 0, 0, 1], 65535);
    assert_eq!(b, vec![5, 1, 0, 1, 10, 0, 0, 1, 0xff, 0xff]);
    let s = complete(decode_request(&b));
    assert_eq!(s.get_target(), "10.0.0.1");
    assert_eq!(s.get_port(), 65535);
}

#[test]
fn decimal_and_hex_rendering() {
    let mut s = String::from("x");
    push_decimal(&mut s, 7);
    push_decimal(&mut s, 42);
    push_decimal(&mut s, 100);
    assert_eq!(s, "x742100");
    let mut h = String::new();
    push_hex_pair(&mut h, 0x0a);
    push_hex_pair(&mut h, 0xf0);
    assert_eq!(h, "0af0");
}
