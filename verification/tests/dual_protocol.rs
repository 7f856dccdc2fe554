//! Behaviour of the connection classifier and the acceptor state machine.

use axum_server_dual_protocol::{
    classify, AcceptStep, AcceptorError, AcceptorMachine, AcceptorState, DualProtocolAcceptor,
    HandshakeOutcome, HeaderEntry, PeekOutcome, Protocol, RequestInfo, ServerExt,
    TLS_HANDSHAKE_BYTE,
};

fn request_without_protocol() -> RequestInfo {
    RequestInfo {
        scheme: None,
        uri_host: None,
        path_and_query: Some("/".to_owned()),
        forwarded_host: HeaderEntry::Missing,
        host_header: HeaderEntry::Text("example.com".to_owned()),
        upgrade_header: HeaderEntry::Missing,
        protocol: None,
    }
}

#[test]
fn first_byte_classifies() {
    assert_eq!(classify(TLS_HANDSHAKE_BYTE), Protocol::Tls);
    assert_eq!(classify(0x16), Protocol::Tls);
    assert_eq!(classify(b'G'), Protocol::Plain);
    assert_eq!(classify(0x00), Protocol::Plain);
}

#[test]
fn tls_marker_starts_the_handshake() {
    let mut machine = AcceptorMachine::new("service");
    let step = machine.on_peek(PeekOutcome::Ready(0x16));
    assert!(matches!(step, AcceptStep::StartHandshake("service")));
    assert!(matches!(machine.state, AcceptorState::Handshaking));
    let step = machine.on_handshake(HandshakeOutcome::Done);
    assert!(matches!(step, AcceptStep::AcceptTls));
    assert!(matches!(machine.state, AcceptorState::Finished));
}

#[test]
fn plaintext_byte_accepts_at_once() {
    let mut machine = AcceptorMachine::new("service");
    let step = machine.on_peek(PeekOutcome::Ready(b'G'));
    assert!(matches!(step, AcceptStep::AcceptPlain("service")));
    assert!(matches!(machine.state, AcceptorState::Finished));
}

#[test]
fn closed_connection_is_unexpected_eof() {
    let mut machine = AcceptorMachine::new("service");
    let step = machine.on_peek(PeekOutcome::Closed);
    assert!(matches!(
        step,
        AcceptStep::Fail(AcceptorError::UnexpectedEof)
    ));
    assert!(matches!(machine.state, AcceptorState::Finished));
}

#[test]
fn peek_error_fails_classification() {
    let mut machine = AcceptorMachine::new("service");
    let step = machine.on_peek(PeekOutcome::Failed);
    assert!(matches!(step, AcceptStep::Fail(AcceptorError::PeekFailed)));
}

#[test]
fn handshake_error_fails_classification() {
    let mut machine = AcceptorMachine::new("service");
    let step = machine.on_peek(PeekOutcome::Ready(0x16));
    assert!(matches!(step, AcceptStep::StartHandshake(_)));
    let step = machine.on_handshake(HandshakeOutcome::Failed);
    assert!(matches!(
        step,
        AcceptStep::Fail(AcceptorError::HandshakeFailed)
    ));
}

#[test]
fn pending_peek_waits() {
    let mut machine = AcceptorMachine::new("service");
    let step = machine.on_peek(PeekOutcome::Pending);
    assert!(matches!(step, AcceptStep::Wait));
    assert!(matches!(machine.state, AcceptorState::Peeking { .. }));
    let step = machine.on_peek(PeekOutcome::Ready(b'G'));
    assert!(matches!(step, AcceptStep::AcceptPlain("service")));
}

#[test]
fn pending_handshake_waits() {
    let mut machine = AcceptorMachine::new("service");
    machine.on_peek(PeekOutcome::Ready(0x16));
    let step = machine.on_handshake(HandshakeOutcome::Pending);
    assert!(matches!(step, AcceptStep::Wait));
    assert!(matches!(machine.state, AcceptorState::Handshaking));
}

#[test]
fn acceptor_wraps_service_according_to_configuration() {
    let acceptor = DualProtocolAcceptor::new();
    let builder = acceptor.prepare("service");
    let service = builder.build(Protocol::Plain);
    assert!(!service.serves_upgrade());
    assert_eq!(service.protocol(), Protocol::Plain);

    let mut acceptor = DualProtocolAcceptor::new();
    DualProtocolAcceptor::set_upgrade(&mut acceptor, true);
    let builder = acceptor.prepare("service");
    let service = builder.build(Protocol::Tls);
    assert!(service.serves_upgrade());
    assert_eq!(service.protocol(), Protocol::Tls);
}

#[test]
fn server_ext_toggles_upgrading() {
    let acceptor = DualProtocolAcceptor::new();
    let acceptor = ServerExt::set_upgrade(acceptor, true);
    let service = acceptor.prepare("service").build(Protocol::Plain);
    assert!(service.serves_upgrade());
}

#[test]
fn tag_is_attached_to_requests() {
    let service = DualProtocolAcceptor::new()
        .prepare("service")
        .build(Protocol::Tls);
    let mut request = request_without_protocol();
    service.tag_request(&mut request);
    assert_eq!(request.protocol, Some(Protocol::Tls));
    assert_eq!(request.path_and_query.as_deref(), Some("/"));
    assert!(matches!(request.host_header, HeaderEntry::Text(host) if host == "example.com"));
}
