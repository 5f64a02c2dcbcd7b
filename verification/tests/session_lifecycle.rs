use rdp_client::{
    Attempt, FailureCause, Incoming, Notification, Session, SessionConnector, SessionError,
    SessionState, Termination, WireEvent,
};

fn alice() -> SessionConnector {
    SessionConnector::new("127.0.0.1:3389".to_string(), 1024, 768).credentials(
        ".".to_string(),
        "alice".to_string(),
        "secret".to_string(),
    )
}

fn streaming() -> Session {
    match alice().connect(Attempt::Authenticated) {
        Ok(session) => session,
        Err(error) => panic!("no session: {:?}", error),
    }
}

#[test]
fn connector_starts_with_default_domain_and_empty_credentials() {
    let connector = SessionConnector::new("host:3389".to_string(), 800, 600);
    let params = connector.params();
    assert_eq!(params.address(), "host:3389");
    assert_eq!(params.domain(), ".");
    assert_eq!(params.username(), "");
    assert_eq!(params.password(), "");
    assert_eq!(params.screen_width(), 800);
    assert_eq!(params.screen_height(), 600);
}

#[test]
fn configure_replaces_geometry_only() {
    let connector = alice().configure(1, 65535);
    let params = connector.params();
    assert_eq!(params.screen_width(), 1);
    assert_eq!(params.screen_height(), 65535);
    assert_eq!(params.address(), "127.0.0.1:3389");
    assert_eq!(params.domain(), ".");
    assert_eq!(params.username(), "alice");
    assert_eq!(params.password(), "secret");
}

#[test]
fn credentials_replace_credentials_only() {
    let connector = alice().credentials("corp".to_string(), "bob".to_string(), "pw".to_string());
    let params = connector.params();
    assert_eq!(params.domain(), "corp");
    assert_eq!(params.username(), "bob");
    assert_eq!(params.password(), "pw");
    assert_eq!(params.address(), "127.0.0.1:3389");
    assert_eq!(params.screen_width(), 1024);
    assert_eq!(params.screen_height(), 768);
}

#[test]
fn empty_username_is_accepted() {
    let connector = alice().credentials(".".to_string(), String::new(), "pw".to_string());
    assert_eq!(connector.params().username(), "");
    assert!(connector.connect(Attempt::Authenticated).is_ok());
}

#[test]
fn connection_params_keep_their_fields() {
    let params = rdp_client::ConnectionParams::new(
        "127.0.0.1:3389".to_string(),
        ".".to_string(),
        "alice".to_string(),
        "secret".to_string(),
        1024,
        768,
    );
    assert_eq!(params.address(), "127.0.0.1:3389");
    assert_eq!(params.domain(), ".");
    assert_eq!(params.username(), "alice");
    assert_eq!(params.password(), "secret");
    assert_eq!(params.screen_width(), 1024);
    assert_eq!(params.screen_height(), 768);
}

#[test]
fn failed_transport_gives_transport_connect_failed() {
    match alice().connect(Attempt::LinkFailed) {
        Err(error) => assert_eq!(error, SessionError::TransportConnectFailed),
        Ok(_) => panic!("a session was handed out"),
    }
}

#[test]
fn refused_handshake_gives_handshake_failed() {
    match alice().connect(Attempt::HandshakeFailed) {
        Err(error) => assert_eq!(error, SessionError::HandshakeFailed),
        Ok(_) => panic!("a session was handed out"),
    }
}

#[test]
fn completed_handshake_gives_streaming_session() {
    let session = streaming();
    assert_eq!(session.state(), SessionState::Streaming);
    assert!(session.is_streaming());
}

#[test]
fn read_hands_event_on_and_keeps_streaming() {
    let mut session = streaming();
    let incoming = Incoming::Event(WireEvent::Pointer { x: 10, y: 20 });
    match session.read(&incoming) {
        Ok(WireEvent::Pointer { x, y }) => {
            assert_eq!(*x, 10);
            assert_eq!(*y, 20);
        },
        other => panic!("unexpected: {:?}", other),
    }
    assert_eq!(session.state(), SessionState::Streaming);
}

#[test]
fn read_failure_disconnects_with_mapped_error() {
    let cases = vec![
        (FailureCause::PeerDisconnect, SessionError::GracefulDisconnect),
        (FailureCause::Io, SessionError::TransportIoFailed),
        (FailureCause::Protocol, SessionError::ProtocolViolation),
        (FailureCause::TlsHandshake, SessionError::ProtocolViolation),
        (FailureCause::Tls, SessionError::ProtocolViolation),
        (FailureCause::Encoding, SessionError::ProtocolViolation),
        (FailureCause::Conversion, SessionError::ProtocolViolation),
    ];
    for (cause, expected) in cases {
        assert_eq!(rdp_client::streaming_error(cause), expected);
        let mut session = streaming();
        let incoming = Incoming::Failure(cause);
        match session.read(&incoming) {
            Err(error) => assert_eq!(error, expected),
            Ok(_) => panic!("an event came out of a failed read"),
        }
        assert_eq!(session.state(), SessionState::Disconnected);
    }
}

#[test]
fn read_is_refused_after_disconnect_and_after_close() {
    let mut session = streaming();
    let failure = Incoming::Failure(FailureCause::Io);
    assert!(session.read(&failure).is_err());
    let event = Incoming::Event(WireEvent::Key { code: 65, pressed: true });
    match session.read(&event) {
        Err(error) => assert_eq!(error, SessionError::ProtocolViolation),
        Ok(_) => panic!("an event came out of a disconnected session"),
    }
    assert_eq!(session.state(), SessionState::Disconnected);
    assert_eq!(session.shutdown(), Ok(()));
    match session.read(&event) {
        Err(error) => assert_eq!(error, SessionError::ProtocolViolation),
        Ok(_) => panic!("an event came out of a closed session"),
    }
    assert_eq!(session.state(), SessionState::Closed);
}

#[test]
fn shutdown_twice_fails_on_second_call() {
    let mut session = streaming();
    assert_eq!(session.shutdown(), Ok(()));
    assert_eq!(session.state(), SessionState::Closed);
    assert_eq!(session.shutdown(), Err(SessionError::ProtocolViolation));
    assert_eq!(session.state(), SessionState::Closed);
    assert_eq!(session.shutdown(), Err(SessionError::ProtocolViolation));
}

#[test]
fn shutdown_after_disconnect_succeeds_once() {
    let mut session = streaming();
    let failure = Incoming::Failure(FailureCause::PeerDisconnect);
    assert!(session.read(&failure).is_err());
    assert_eq!(session.shutdown(), Ok(()));
    assert_eq!(session.shutdown(), Err(SessionError::ProtocolViolation));
}

#[test]
fn classify_tells_graceful_from_failures() {
    assert_eq!(rdp_client::classify(SessionError::GracefulDisconnect), Termination::Graceful);
    let failures = vec![
        SessionError::TransportConnectFailed,
        SessionError::HandshakeFailed,
        SessionError::ProtocolViolation,
        SessionError::TransportIoFailed,
    ];
    for error in failures {
        assert_eq!(rdp_client::classify(error), Termination::Failure(error));
    }
}

#[test]
fn dispatch_maps_each_kind() {
    let bitmap = WireEvent::Bitmap { width: 800, height: 600, data: vec![1, 2, 3] };
    assert_eq!(
        rdp_client::dispatch(&bitmap),
        Notification::ScreenUpdate { width: 800, height: 600 }
    );
    assert_eq!(
        rdp_client::dispatch(&WireEvent::Pointer { x: 10, y: 20 }),
        Notification::PointerMoved { x: 10, y: 20 }
    );
    assert_eq!(
        rdp_client::dispatch(&WireEvent::Key { code: 65, pressed: false }),
        Notification::KeyChanged { code: 65, pressed: false }
    );
}
