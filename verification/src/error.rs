use vstd::prelude::*;

verus! {

/// Why a session could not be set up, or why it ended.
#[derive(Clone, Copy, Debug, PartialEq, Eq, Structural)]
pub enum SessionError {
    /// The transport to the remote host could not be established.
    TransportConnectFailed,
    /// The peer refused the negotiation or the credentials.
    HandshakeFailed,
    /// The peer sent something the protocol does not allow, or the session
    /// was used in a state that does not allow the operation.
    ProtocolViolation,
    /// The peer asked to end the session.
    GracefulDisconnect,
    /// Reading from or writing to the transport failed.
    TransportIoFailed,
}

/// How the end of a session is reported to the caller.
#[derive(Clone, Copy, Debug, PartialEq, Eq, Structural)]
pub enum Termination {
    /// The peer ended the session; this is the expected way for it to end.
    Graceful,
    /// The session ended because of the given failure.
    Failure(SessionError),
}

/// What a failed read was caused by, as far as the session logic tells
/// causes apart.
#[derive(Clone, Copy, Debug, PartialEq, Eq, Structural)]
pub enum FailureCause {
    /// The protocol layer reported that the peer disconnected.
    PeerDisconnect,
    /// The protocol layer reported any other protocol error.
    Protocol,
    /// The transport reported an I/O error.
    Io,
    /// The encryption layer failed while negotiating.
    TlsHandshake,
    /// The encryption layer reported another error.
    Tls,
    /// A structure in the certificate encoding could not be parsed.
    Encoding,
    /// A value could not be converted to the expected type.
    Conversion,
}

#[verifier::external_type_specification]
#[verifier::external_body]
pub struct ExProtocolError(rdp::model::error::Error);

/// The error that ends the read loop when a read fails for `cause`.
pub open spec fn streaming_error_of(cause: FailureCause) -> SessionError {
    match cause {
        FailureCause::PeerDisconnect => SessionError::GracefulDisconnect,
        FailureCause::Io => SessionError::TransportIoFailed,
        _ => SessionError::ProtocolViolation,
    }
}

/// The report that `classify` gives for `error`.
pub open spec fn termination_of(error: SessionError) -> Termination {
    if error == SessionError::GracefulDisconnect {
        Termination::Graceful
    } else {
        Termination::Failure(error)
    }
}

/// Holds of the errors that can end a session that is streaming.
pub open spec fn ends_streaming(error: SessionError) -> bool {
    error == SessionError::GracefulDisconnect || error == SessionError::TransportIoFailed
        || error == SessionError::ProtocolViolation
}

/// Maps the cause of a failed read to the error that ends the read loop.
pub fn streaming_error(cause: FailureCause) -> (error: SessionError)
    ensures
        error == streaming_error_of(cause),
        ends_streaming(error),
{
    match cause {
        FailureCause::PeerDisconnect => SessionError::GracefulDisconnect,
        FailureCause::Io => SessionError::TransportIoFailed,
        FailureCause::Protocol => SessionError::ProtocolViolation,
        FailureCause::TlsHandshake => SessionError::ProtocolViolation,
        FailureCause::Tls => SessionError::ProtocolViolation,
        FailureCause::Encoding => SessionError::ProtocolViolation,
        FailureCause::Conversion => SessionError::ProtocolViolation,
    }
}

/// Tells the expected end of a session from every other end.
pub fn classify(error: SessionError) -> (report: Termination)
    ensures
        report == termination_of(error),
        report == Termination::Graceful <==> error == SessionError::GracefulDisconnect,
{
    match error {
        SessionError::GracefulDisconnect => Termination::Graceful,
        other => Termination::Failure(other),
    }
}

/// The cause that an error of the protocol crate stands for: the variant of
/// `rdp::model::error::Error`, and for its `RdpError` variant whether
/// `RdpError::kind` is `Disconnect`.
pub uninterp spec fn cause_of(error: rdp::model::error::Error) -> FailureCause;

/// Reads the variant of `rdp::model::error::Error`, and for its `RdpError`
/// variant calls `RdpError::kind` and tells `Disconnect` from the other
/// kinds.  The cause depends on the error alone; the contract gives it its
/// name and claims no more of it.
#[verifier::external_body]
pub(crate) fn failure_cause(error: &rdp::model::error::Error) -> (cause: FailureCause)
    ensures
        cause == cause_of(*error),
{
    match error {
        rdp::model::error::Error::RdpError(inner) => match inner.kind() {
            rdp::model::error::RdpErrorKind::Disconnect => FailureCause::PeerDisconnect,
            _ => FailureCause::Protocol,
        },
        rdp::model::error::Error::Io(_) => FailureCause::Io,
        rdp::model::error::Error::SslHandshakeError => FailureCause::TlsHandshake,
        rdp::model::error::Error::SslError(_) => FailureCause::Tls,
        rdp::model::error::Error::ASN1Error(_) => FailureCause::Encoding,
        rdp::model::error::Error::TryError(_) => FailureCause::Conversion,
    }
}

} // verus!
