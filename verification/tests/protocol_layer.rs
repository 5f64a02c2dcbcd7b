use rdp::model::error::{Error, RdpError, RdpErrorKind};
use rdp_client::{
    Attempt, Notification, Session, SessionConnector, SessionError, SessionState, Termination,
};

fn streaming() -> Session {
    let connector = SessionConnector::new("127.0.0.1:3389".to_string(), 1024, 768);
    match connector.connect(Attempt::Authenticated) {
        Ok(session) => session,
        Err(error) => panic!("no session: {:?}", error),
    }
}

fn bitmap(width: u16, height: u16) -> rdp::core::event::RdpEvent {
    rdp::core::event::RdpEvent::Bitmap(rdp::core::event::BitmapEvent {
        dest_left: 0,
        dest_top: 0,
        dest_right: 7,
        dest_bottom: 5,
        width,
        height,
        bpp: 32,
        is_compress: false,
        data: vec![0; 8],
    })
}

#[test]
fn decoded_events_become_notifications_in_order() {
    let mut session = streaming();
    assert_eq!(
        session.receive(bitmap(800, 600)),
        Ok(Notification::ScreenUpdate { width: 800, height: 600 })
    );
    let pointer = rdp::core::event::RdpEvent::Pointer(rdp::core::event::PointerEvent {
        x: 10,
        y: 20,
        button: rdp::core::event::PointerButton::None,
        down: false,
    });
    assert_eq!(session.receive(pointer), Ok(Notification::PointerMoved { x: 10, y: 20 }));
    let key = rdp::core::event::RdpEvent::Key(rdp::core::event::KeyboardEvent { code: 65, down: true });
    assert_eq!(session.receive(key), Ok(Notification::KeyChanged { code: 65, pressed: true }));
    assert_eq!(session.state(), SessionState::Streaming);
}

#[test]
fn decoded_event_is_refused_when_not_streaming() {
    let mut session = streaming();
    assert_eq!(session.shutdown(), Ok(()));
    let key = rdp::core::event::RdpEvent::Key(rdp::core::event::KeyboardEvent { code: 65, down: false });
    assert_eq!(session.receive(key), Err(SessionError::ProtocolViolation));
    assert_eq!(session.state(), SessionState::Closed);
}

#[test]
fn disconnect_of_protocol_layer_is_graceful() {
    let mut session = streaming();
    let error = Error::RdpError(RdpError::new(RdpErrorKind::Disconnect, "bye"));
    assert_eq!(session.interrupted(&error), Termination::Graceful);
    assert_eq!(session.state(), SessionState::Disconnected);
    assert_eq!(session.shutdown(), Ok(()));
    assert_eq!(session.shutdown(), Err(SessionError::ProtocolViolation));
}

#[test]
fn other_protocol_errors_are_violations() {
    let kinds = vec![
        RdpErrorKind::InvalidData,
        RdpErrorKind::InvalidAutomata,
        RdpErrorKind::RejectedByServer,
        RdpErrorKind::UnexpectedType,
        RdpErrorKind::Unknown,
    ];
    for kind in kinds {
        let mut session = streaming();
        let error = Error::RdpError(RdpError::new(kind, "bad"));
        assert_eq!(
            session.interrupted(&error),
            Termination::Failure(SessionError::ProtocolViolation)
        );
        assert_eq!(session.state(), SessionState::Disconnected);
    }
}

#[test]
fn io_error_is_transport_io_failed() {
    let mut session = streaming();
    let error = Error::Io(std::io::Error::new(std::io::ErrorKind::UnexpectedEof, "eof"));
    assert_eq!(
        session.interrupted(&error),
        Termination::Failure(SessionError::TransportIoFailed)
    );
    assert_eq!(session.state(), SessionState::Disconnected);
}

#[test]
fn remaining_error_variants_are_violations() {
    let mut session = streaming();
    assert_eq!(
        session.interrupted(&Error::SslHandshakeError),
        Termination::Failure(SessionError::ProtocolViolation)
    );
    let mut session = streaming();
    assert_eq!(
        session.interrupted(&Error::TryError("cast".to_string())),
        Termination::Failure(SessionError::ProtocolViolation)
    );
}

#[test]
fn failure_outside_streaming_leaves_state() {
    let mut session = streaming();
    assert_eq!(session.shutdown(), Ok(()));
    let error = Error::RdpError(RdpError::new(RdpErrorKind::Disconnect, "bye"));
    assert_eq!(
        session.interrupted(&error),
        Termination::Failure(SessionError::ProtocolViolation)
    );
    assert_eq!(session.state(), SessionState::Closed);
}

#[test]
fn protocol_connector_is_built_from_parameters() {
    let connector = SessionConnector::new("127.0.0.1:3389".to_string(), 1024, 768).credentials(
        ".".to_string(),
        "alice".to_string(),
        "secret".to_string(),
    );
    let _outside = connector.protocol_connector();
    assert_eq!(connector.params().username(), "alice");
}

#[test]
fn released_key_and_pressed_button_keep_their_fields() {
    let mut session = streaming();
    let key = rdp::core::event::RdpEvent::Key(rdp::core::event::KeyboardEvent {
        code: 30,
        down: false,
    });
    assert_eq!(session.receive(key), Ok(Notification::KeyChanged { code: 30, pressed: false }));
    let pointer = rdp::core::event::RdpEvent::Pointer(rdp::core::event::PointerEvent {
        x: 65535,
        y: 0,
        button: rdp::core::event::PointerButton::Left,
        down: true,
    });
    assert_eq!(session.receive(pointer), Ok(Notification::PointerMoved { x: 65535, y: 0 }));
}
