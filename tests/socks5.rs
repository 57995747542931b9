use noterm::socks5::{connect_reply, Socks5Handshake, Socks5Phase};

fn feed(h: &mut Socks5Handshake, bytes: &[u8]) -> Vec<u8> {
    assert_eq!(h.bytes_wanted(), bytes.len());
    h.receive(bytes)
}

#[test]
fn socks5_domain_connect_request() {
    let mut h = Socks5Handshake::new();
    assert!(feed(&mut h, &[5, 1]).is_empty());
    assert_eq!(feed(&mut h, &[0]), vec![5, 0]);
    assert!(feed(&mut h, &[5, 1, 0, 3]).is_empty());
    assert!(feed(&mut h, &[11]).is_empty());
    assert!(feed(&mut h, b"example.com").is_empty());
    assert!(feed(&mut h, &[0, 80]).is_empty());
    assert!(h.is_finished());
    assert_eq!(h.phase, Socks5Phase::Ready { host: "example.com".to_string(), port: 80 });
    assert_eq!(connect_reply(true), vec![5, 0, 0, 1, 0, 0, 0, 0, 0, 0]);
}

#[test]
fn socks5_failed_connect_reply() {
    assert_eq!(connect_reply(false), vec![5, 1, 0, 1, 0, 0, 0, 0, 0, 0]);
}

#[test]
fn socks5_rejects_other_versions() {
    let mut h = Socks5Handshake::new();
    assert!(feed(&mut h, &[4, 1]).is_empty());
    assert_eq!(h.phase, Socks5Phase::Rejected);
    assert!(h.is_finished());
    assert_eq!(h.bytes_wanted(), 0);
}

#[test]
fn socks5_requires_no_auth_method() {
    let mut h = Socks5Handshake::new();
    feed(&mut h, &[5, 2]);
    assert_eq!(feed(&mut h, &[1, 2]), vec![5, 0xFF]);
    assert_eq!(h.phase, Socks5Phase::Rejected);
}

#[test]
fn socks5_empty_method_list_is_refused() {
    let mut h = Socks5Handshake::new();
    feed(&mut h, &[5, 0]);
    assert_eq!(feed(&mut h, &[]), vec![5, 0xFF]);
    assert!(h.is_finished());
}

#[test]
fn socks5_rejects_non_connect_commands() {
    let mut h = Socks5Handshake::new();
    feed(&mut h, &[5, 1]);
    feed(&mut h, &[0]);
    assert_eq!(feed(&mut h, &[5, 2, 0, 1]), vec![5, 7, 0, 1, 0, 0, 0, 0, 0, 0]);
    assert_eq!(h.phase, Socks5Phase::Rejected);
}

#[test]
fn socks5_rejects_unknown_address_type() {
    let mut h = Socks5Handshake::new();
    feed(&mut h, &[5, 1]);
    feed(&mut h, &[0]);
    assert!(feed(&mut h, &[5, 1, 0, 9]).is_empty());
    assert_eq!(h.phase, Socks5Phase::Rejected);
}

#[test]
fn socks5_ipv4_target() {
    let mut h = Socks5Handshake::new();
    feed(&mut h, &[5, 3]);
    assert_eq!(feed(&mut h, &[2, 1, 0]), vec![5, 0]);
    feed(&mut h, &[5, 1, 0, 1]);
    feed(&mut h, &[192, 168, 0, 17]);
    feed(&mut h, &[0x1F, 0x90]);
    assert_eq!(h.phase, Socks5Phase::Ready { host: "192.168.0.17".to_string(), port: 8080 });
}

#[test]
fn socks5_ipv6_target() {
    let mut h = Socks5Handshake::new();
    feed(&mut h, &[5, 1]);
    feed(&mut h, &[0]);
    feed(&mut h, &[5, 1, 0, 4]);
    assert_eq!(h.bytes_wanted(), 16);
    feed(&mut h, &[0x20, 0x01, 0x0d, 0xb8, 0, 0, 0, 0, 0, 0, 0, 0, 0xab, 0xcd, 0, 1]);
    feed(&mut h, &[1, 187]);
    assert_eq!(h.phase, Socks5Phase::Ready { host: "2001:0db8:0000:0000:0000:0000:abcd:0001".to_string(), port: 443 });
}

#[test]
fn socks5_invalid_utf8_host_is_decoded_lossily() {
    let mut h = Socks5Handshake::new();
    feed(&mut h, &[5, 1]);
    feed(&mut h, &[0]);
    feed(&mut h, &[5, 1, 0, 3]);
    feed(&mut h, &[3]);
    feed(&mut h, &[b'a', 0xFF, b'b']);
    feed(&mut h, &[0, 22]);
    assert_eq!(h.phase, Socks5Phase::Ready { host: "a\u{FFFD}b".to_string(), port: 22 });
}
