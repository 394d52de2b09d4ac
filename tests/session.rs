use quic_socks::session::{reply_after_connect, run_handshake, Phase, SessionStep, Socks5Session};
use quic_socks::wire::{ConnectionType, Socks5Error};

fn handshake_bytes(request: &[u8]) -> Vec<u8> {
    let mut b = vec![5, 2, 0, 2];
    b.extend_from_slice(request);
    b
}

#[test]
fn session_steps_through_negotiation_and_request() {
    let mut s = Socks5Session::new();
    assert!(matches!(s.feed(&[]), SessionStep::Read(2)));
    assert!(matches!(s.feed(&[5, 1]), SessionStep::Read(1)));
    match s.feed(&[0]) {
        SessionStep::Reply(r) => assert_eq!(r, vec![5, 0]),
        _ => panic!("expected the negotiation reply"),
    }
    assert_eq!(s.phase(), Phase::AwaitingRequest);
    assert!(matches!(s.feed(&[]), SessionStep::Read(4)));
    assert!(matches!(s.feed(&[5, 1, 0, 1]), SessionStep::Read(6)));
    match s.feed(&[93, 184, 216, 34, 0, 80]) {
        SessionStep::Resolved(t) => {
            assert_eq!(t.get_conn_type(), ConnectionType::TCP);
            assert_eq!(t.get_target(), "93.184.216.34");
            assert_eq!(t.get_port(), 80);
        }
        _ => panic!("expected a resolved target"),
    }
    assert_eq!(s.phase(), Phase::Resolved);
    assert!(matches!(s.feed(&[1]), SessionStep::Failed(Socks5Error::SessionOver)));
}

#[test]
fn tcp_flow_resolves_and_replies() {
    let input = handshake_bytes(&[5, 1, 0, 1, 93, 184, 216, 34, 0, 80]);
    let (step, replies) = run_handshake(&input);
    assert_eq!(replies, vec![5, 0]);
    match step {
        SessionStep::Resolved(t) => {
            assert_eq!(t.get_conn_type(), ConnectionType::TCP);
            assert_eq!(t.get_target(), "93.184.216.34");
            assert_eq!(t.get_port(), 80);
        }
        _ => panic!("expected a resolved target"),
    }
    assert_eq!(reply_after_connect(true), Some(vec![5, 0, 0, 1, 0, 0, 0, 0, 0, 0]));
}

#[test]
fn domain_flow_resolves_example_com() {
    let mut req = vec![5, 1, 0, 3, 11];
    req.extend_from_slice(b"example.com");
    req.extend_from_slice(&[0x00, 0x50]);
    let (step, _) = run_handshake(&handshake_bytes(&req));
    match step {
        SessionStep::Resolved(t) => {
            assert_eq!(t.get_target(), "example.com");
            assert_eq!(t.get_port(), 80);
        }
        _ => panic!("expected a resolved target"),
    }
}

#[test]
fn two_runs_over_the_same_bytes_agree() {
    let input = handshake_bytes(&[5, 3, 0, 1, 8, 8, 4, 4, 0, 53]);
    let (a, ra) = run_handshake(&input);
    let (b, rb) = run_handshake(&input);
    assert_eq!(ra, rb);
    match (a, b) {
        (SessionStep::Resolved(x), SessionStep::Resolved(y)) => {
            assert_eq!(x.get_conn_type(), y.get_conn_type());
            assert_eq!(x.get_conn_type(), ConnectionType::UDP);
            assert_eq!(x.get_target(), y.get_target());
            assert_eq!(x.get_target(), "8.8.4.4");
            assert_eq!(x.get_port(), y.get_port());
        }
        _ => panic!("expected two resolved targets"),
    }
}

#[test]
fn bad_address_type_fails_the_session() {
    let (step, replies) = run_handshake(&handshake_bytes(&[5, 1, 0, 9, 1, 2, 3, 4, 0, 80]));
    assert!(matches!(step, SessionStep::Failed(Socks5Error::InvalidAddressType)));
    assert_eq!(replies, vec![5, 0]);
}

#[test]
fn bad_command_fails_after_the_header() {
    let mut s = Socks5Session::new();
    s.feed(&[]);
    s.feed(&[5, 0]);
    assert!(matches!(s.feed(&[]), SessionStep::Read(4)));
    assert!(matches!(s.feed(&[5, 2, 0, 1]), SessionStep::Failed(Socks5Error::InvalidCommand)));
    assert_eq!(s.phase(), Phase::Failed);
}

#[test]
fn bad_negotiation_version_fails() {
    let (step, replies) = run_handshake(&[4, 1, 0]);
    assert!(matches!(step, SessionStep::Failed(Socks5Error::NotSocks5)));
    assert!(replies.is_empty());
}

#[test]
fn short_input_stops_at_the_unsatisfied_read() {
    let (step, replies) = run_handshake(&[5, 1, 0, 5, 1, 0]);
    assert!(matches!(step, SessionStep::Read(4)));
    assert_eq!(replies, vec![5, 0]);
}

#[test]
fn failed_connect_sends_no_reply() {
    assert_eq!(reply_after_connect(false), None);
}

#[test]
fn negotiation_without_methods_then_domain_request() {
    let input = vec![5, 0, 5, 3, 0, 3, 0, 0x13, 0x88];
    let (step, replies) = run_handshake(&input);
    assert_eq!(replies, vec![5, 0]);
    match step {
        SessionStep::Resolved(t) => {
            assert_eq!(t.get_conn_type(), ConnectionType::UDP);
            assert_eq!(t.get_target(), "");
            assert_eq!(t.get_port(), 5000);
        }
        _ => panic!("expected a resolved target"),
    }
}
