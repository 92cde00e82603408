use stream_backend::preamble::PreambleSkipper;
use stream_backend::relay::{RelayAction, RelayEvent, RelaySession, RelayState};
use stream_backend::MediaError;

#[test]
fn preamble_then_body_crlf() {
    let mut sk = PreambleSkipper::new();
    let out = sk.feed(b"ICY 200 OK\r\nicy-name: x\r\n\r\nBODY BYTES");
    assert_eq!(out, b"BODY BYTES");
}

#[test]
fn preamble_then_body_lf_only() {
    let mut sk = PreambleSkipper::new();
    let out = sk.feed(b"HTTP/1.0 200 OK\nServer: s\n\nxyz");
    assert_eq!(out, b"xyz");
}

#[test]
fn preamble_split_across_reads() {
    let mut sk = PreambleSkipper::new();
    let mut got: Vec<u8> = Vec::new();
    got.extend(sk.feed(b"ICY 200 OK\r"));
    got.extend(sk.feed(b"\n\r"));
    got.extend(sk.feed(b"\nBO"));
    got.extend(sk.feed(b"DY"));
    assert_eq!(got, b"BODY");
}

#[test]
fn body_starts_at_blank_line_with_whitespace() {
    // A line of horizontal whitespace still separates head from body.
    let mut sk = PreambleSkipper::new();
    let out = sk.feed(b"X\r\n \t\r\nB");
    assert_eq!(out, b"B");
}

#[test]
fn immediate_blank_line() {
    let mut sk = PreambleSkipper::new();
    let out = sk.feed(b"\r\nDATA");
    assert_eq!(out, b"DATA");
}

#[test]
fn no_blank_line_no_body() {
    // An origin that closes before any blank line yields nothing.
    let mut sk = PreambleSkipper::new();
    let out = sk.feed(b"ICY 200 OK\r\nicy-name: x\r\n");
    assert_eq!(out, Vec::<u8>::new());
    assert!(!sk.is_in_body());
}

#[test]
fn plain_session_full_run() {
    let mut s = RelaySession::new(false);
    assert_eq!(s.state, RelayState::Connecting { tls: false });
    assert!(matches!(s.step(RelayEvent::Connected), RelayAction::SendRequest));
    assert!(matches!(s.step(RelayEvent::RequestSent), RelayAction::Read));
    match s.step(RelayEvent::Data(b"H\r\n\r\nAB".to_vec())) {
        RelayAction::Yield(v) => assert_eq!(v, b"AB"),
        _ => panic!("expected a chunk"),
    }
    assert_eq!(s.state, RelayState::Streaming);
    match s.step(RelayEvent::Data(b"CD".to_vec())) {
        RelayAction::Yield(v) => assert_eq!(v, b"CD"),
        _ => panic!("expected a chunk"),
    }
    assert!(matches!(s.step(RelayEvent::Eof), RelayAction::Finish));
    assert_eq!(s.state, RelayState::Closed);
}

#[test]
fn tls_session_handshakes_first() {
    let mut s = RelaySession::new(true);
    assert!(matches!(s.step(RelayEvent::Connected), RelayAction::Handshake));
    assert!(matches!(s.step(RelayEvent::HandshakeDone), RelayAction::SendRequest));
    assert_eq!(s.state, RelayState::SendingRequest);
}

#[test]
fn preamble_only_chunk_asks_for_more() {
    let mut s = RelaySession::new(false);
    s.step(RelayEvent::Connected);
    s.step(RelayEvent::RequestSent);
    assert!(matches!(s.step(RelayEvent::Data(b"ICY 200 OK\r\n".to_vec())), RelayAction::Read));
    assert_eq!(s.state, RelayState::SkippingPreamble);
}

#[test]
fn eof_during_preamble_is_success() {
    // An origin that closes with no blank line: an empty, successful stream.
    let mut s = RelaySession::new(false);
    s.step(RelayEvent::Connected);
    s.step(RelayEvent::RequestSent);
    assert!(matches!(s.step(RelayEvent::Data(b"ICY 200 OK\r\n".to_vec())), RelayAction::Read));
    assert!(matches!(s.step(RelayEvent::Eof), RelayAction::Finish));
    assert_eq!(s.state, RelayState::Closed);
}

#[test]
fn dropped_connection_mid_body() {
    // Chunks read before the drop stand; the drop is a terminal error.
    let mut s = RelaySession::new(false);
    s.step(RelayEvent::Connected);
    s.step(RelayEvent::RequestSent);
    let mut got: Vec<u8> = Vec::new();
    if let RelayAction::Yield(v) = s.step(RelayEvent::Data(b"\r\nPART".to_vec())) {
        got.extend(v);
    }
    match s.step(RelayEvent::ReadFailed) {
        RelayAction::Fail(e) => assert_eq!(e, MediaError::StreamIoError),
        _ => panic!("expected a failure"),
    }
    assert_eq!(got, b"PART");
    assert_eq!(s.state, RelayState::Failed);
}

#[test]
fn connect_failure() {
    let mut s = RelaySession::new(false);
    match s.step(RelayEvent::ConnectFailed) {
        RelayAction::Fail(e) => {
            assert_eq!(e, MediaError::UpstreamUnreachable);
            assert_eq!(stream_backend::status_code(e), 502);
        },
        _ => panic!("expected a failure"),
    }
}

#[test]
fn handshake_failure() {
    let mut s = RelaySession::new(true);
    s.step(RelayEvent::Connected);
    match s.step(RelayEvent::HandshakeFailed) {
        RelayAction::Fail(e) => assert_eq!(e, MediaError::UpstreamTlsError),
        _ => panic!("expected a failure"),
    }
    assert_eq!(s.state, RelayState::Failed);
}

#[test]
fn request_text_is_exact() {
    let r = stream_backend::request::build_request("radio.example.com", "/live");
    assert_eq!(
        r,
        "GET /live HTTP/1.0\r\nHost: radio.example.com\r\nUser-Agent: Rust-Stream\r\nConnection: close\r\n\r\n"
    );
}
