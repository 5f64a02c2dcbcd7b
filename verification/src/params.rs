use vstd::prelude::*;
use crate::address::{parse_port, port_of};
use crate::error::SessionError;
use crate::session::{Session, SessionState};

verus! {

/// The mathematical value of a set of connection parameters.
pub struct ParamsView {
    pub address: Seq<char>,
    pub domain: Seq<char>,
    pub username: Seq<char>,
    pub password: Seq<char>,
    pub screen_width: u16,
    pub screen_height: u16,
}

/// What a session is opened with: where to connect, as whom, and the size
/// of the screen that is asked for.  A value does not change once made.
#[derive(Clone, Debug)]
pub struct ConnectionParams {
    address: String,
    domain: String,
    username: String,
    password: String,
    screen_width: u16,
    screen_height: u16,
}

/// Assembles connection parameters and turns the outcome of a connection
/// attempt into a session or an error.  The screen it asks for is never
/// empty.
pub struct SessionConnector {
    params: ConnectionParams,
}

/// What one attempt to reach and authenticate with the peer met.
#[derive(Clone, Copy, Debug, PartialEq, Eq, Structural)]
pub enum Attempt {
    /// The transport could not be established.
    LinkFailed,
    /// The transport was open, but the negotiation or the credentials were
    /// refused.
    HandshakeFailed,
    /// The handshake was completed.
    Authenticated,
}

#[verifier::external_type_specification]
#[verifier::external_body]
pub struct ExProtocolConnector(rdp::core::client::Connector);

/// The connector that the protocol crate builds for a screen size and a set
/// of credentials: `rdp::core::client::Connector::new`, followed by
/// `screen` and by `credentials` with these values.
pub uninterp spec fn configured_connector(
    width: u16,
    height: u16,
    domain: Seq<char>,
    username: Seq<char>,
    password: Seq<char>,
) -> rdp::core::client::Connector;

/// Calls `rdp::core::client::Connector::new` and hands the result through
/// `screen` and `credentials`.  Those three only store what they are given
/// beside the crate's fixed defaults, so the connector that comes back is
/// determined by the five values; the contract gives it its name and claims
/// no more of it.
#[verifier::external_body]
fn build_connector(
    width: u16,
    height: u16,
    domain: String,
    username: String,
    password: String,
) -> (c: rdp::core::client::Connector)
    ensures
        c == configured_connector(width, height, domain@, username@, password@),
{
    rdp::core::client::Connector::new().screen(width, height).credentials(
        domain,
        username,
        password,
    )
}

/// The domain that is used where none is given.
pub open spec fn default_domain() -> Seq<char> {
    seq!['.']
}

/// What `connect` returns for a connector with the address `address` and
/// for `attempt`: the state of the session that it hands out, or the error.
/// An address that names no port cannot be reached, whatever the attempt is
/// said to have met.
pub open spec fn connect_result(address: Seq<char>, attempt: Attempt) -> Result<
    SessionState,
    SessionError,
> {
    if port_of(address) is None {
        Err(SessionError::TransportConnectFailed)
    } else {
        match attempt {
            Attempt::LinkFailed => Err(SessionError::TransportConnectFailed),
            Attempt::HandshakeFailed => Err(SessionError::HandshakeFailed),
            Attempt::Authenticated => Ok(SessionState::Streaming),
        }
    }
}

impl View for ConnectionParams {
    type V = ParamsView;

    closed spec fn view(&self) -> ParamsView {
        ParamsView {
            address: self.address@,
            domain: self.domain@,
            username: self.username@,
            password: self.password@,
            screen_width: self.screen_width,
            screen_height: self.screen_height,
        }
    }
}

impl ConnectionParams {
    /// Parameters with the given fields.
    pub fn new(
        address: String,
        domain: String,
        username: String,
        password: String,
        screen_width: u16,
        screen_height: u16,
    ) -> (p: ConnectionParams)
        ensures
            p@ == (ParamsView {
                address: address@,
                domain: domain@,
                username: username@,
                password: password@,
                screen_width,
                screen_height,
            }),
    {
        ConnectionParams { address, domain, username, password, screen_width, screen_height }
    }

    /// The address of the remote host, as `host:port`.
    pub fn address(&self) -> (s: &str)
        ensures
            s@ == self@.address,
    {
        self.address.as_str()
    }

    /// The domain of the account.
    pub fn domain(&self) -> (s: &str)
        ensures
            s@ == self@.domain,
    {
        self.domain.as_str()
    }

    /// The name of the account.
    pub fn username(&self) -> (s: &str)
        ensures
            s@ == self@.username,
    {
        self.username.as_str()
    }

    /// The password of the account.
    pub fn password(&self) -> (s: &str)
        ensures
            s@ == self@.password,
    {
        self.password.as_str()
    }

    /// The port that the address names, where it names one.
    pub fn port(&self) -> (p: Option<u16>)
        ensures
            p == port_of(self@.address),
    {
        parse_port(self.address.as_str())
    }

    /// The width of the screen that is asked for.
    pub fn screen_width(&self) -> (w: u16)
        ensures
            w == self@.screen_width,
    {
        self.screen_width
    }

    /// The height of the screen that is asked for.
    pub fn screen_height(&self) -> (h: u16)
        ensures
            h == self@.screen_height,
    {
        self.screen_height
    }
}

impl View for SessionConnector {
    type V = ParamsView;

    closed spec fn view(&self) -> ParamsView {
        self.params@
    }
}

impl SessionConnector {
    #[verifier::type_invariant]
    spec fn inv(self) -> bool {
        self.params.screen_width > 0 && self.params.screen_height > 0
    }

    /// A connector for `address` that asks for a screen of the given size,
    /// with the default domain and an empty user name and password.
    pub fn new(address: String, screen_width: u16, screen_height: u16) -> (c: SessionConnector)
        requires
            screen_width > 0,
            screen_height > 0,
        ensures
            c@ == (ParamsView {
                address: address@,
                domain: default_domain(),
                username: Seq::<char>::empty(),
                password: Seq::<char>::empty(),
                screen_width,
                screen_height,
            }),
    {
        proof {
            reveal_strlit(".");
        }
        let domain = ".".to_owned();
        assert(domain@ =~= default_domain());
        SessionConnector {
            params: ConnectionParams {
                address,
                domain,
                username: String::new(),
                password: String::new(),
                screen_width,
                screen_height,
            },
        }
    }

    /// Records the size of the screen that is asked for.
    pub fn configure(self, screen_width: u16, screen_height: u16) -> (c: SessionConnector)
        requires
            screen_width > 0,
            screen_height > 0,
        ensures
            c@ == (ParamsView { screen_width, screen_height, ..self@ }),
    {
        let SessionConnector { params } = self;
        let ConnectionParams { address, domain, username, password, .. } = params;
        SessionConnector {
            params: ConnectionParams {
                address,
                domain,
                username,
                password,
                screen_width,
                screen_height,
            },
        }
    }

    /// Records the credentials.  They are taken as they are: an empty user
    /// name is accepted, and whether they are valid is for the peer to say.
    pub fn credentials(self, domain: String, username: String, password: String) -> (c: SessionConnector)
        ensures
            c@ == (ParamsView {
                domain: domain@,
                username: username@,
                password: password@,
                ..self@
            }),
    {
        proof {
            use_type_invariant(&self);
        }
        let SessionConnector { params } = self;
        let ConnectionParams { address, screen_width, screen_height, .. } = params;
        SessionConnector {
            params: ConnectionParams {
                address,
                domain,
                username,
                password,
                screen_width,
                screen_height,
            },
        }
    }

    /// The parameters assembled so far.  The screen they ask for is not
    /// empty.
    pub fn params(&self) -> (p: &ConnectionParams)
        ensures
            p@ == self@,
            p@.screen_width > 0,
            p@.screen_height > 0,
    {
        proof {
            use_type_invariant(self);
        }
        &self.params
    }

    /// The connector of the protocol crate, built from this connector's
    /// screen size and credentials, each handed on as it stands.
    pub fn protocol_connector(&self) -> (c: rdp::core::client::Connector)
        ensures
            c == configured_connector(
                self@.screen_width,
                self@.screen_height,
                self@.domain,
                self@.username,
                self@.password,
            ),
    {
        build_connector(
            self.params.screen_width,
            self.params.screen_height,
            self.params.domain.clone(),
            self.params.username.clone(),
            self.params.password.clone(),
        )
    }

    /// Turns what a connection attempt met into a session or an error.  A
    /// session is handed out only for an address that names a port and a
    /// completed handshake, and it is streaming; an address without a port
    /// and a failed transport give one error, a refused handshake another,
    /// and neither a session.
    pub fn connect(&self, attempt: Attempt) -> (r: Result<Session, SessionError>)
        ensures
            match r {
                Ok(session) => connect_result(self@.address, attempt) == Ok::<
                    SessionState,
                    SessionError,
                >(session.spec_state()),
                Err(error) => connect_result(self@.address, attempt) == Err::<
                    SessionState,
                    SessionError,
                >(error),
            },
    {
        if self.params.port().is_none() {
            return Err(SessionError::TransportConnectFailed);
        }
        match attempt {
            Attempt::LinkFailed => Err(SessionError::TransportConnectFailed),
            Attempt::HandshakeFailed => Err(SessionError::HandshakeFailed),
            Attempt::Authenticated => {
                let mut session = Session::connecting();
                session.link_opened();
                session.authenticated();
                Ok(session)
            },
        }
    }
}

/// Where the address names no port, or the transport could not be
/// established, connecting gives `TransportConnectFailed` and no session,
/// whatever the credentials and the screen size are.
pub proof fn law_unreachable_gives_no_session(address: Seq<char>, attempt: Attempt)
    requires
        port_of(address) is None || attempt == Attempt::LinkFailed,
    ensures
        connect_result(address, attempt) == Err::<SessionState, SessionError>(
            SessionError::TransportConnectFailed,
        ),
{
}

/// Where the transport was open and the peer refused the handshake,
/// connecting gives `HandshakeFailed` and no session; and a session that
/// connecting does hand out is streaming, so none is seen in an earlier
/// state.
pub proof fn law_refused_gives_no_session(address: Seq<char>, attempt: Attempt)
    ensures
        port_of(address) is Some && attempt == Attempt::HandshakeFailed ==> connect_result(
            address,
            attempt,
        ) == Err::<SessionState, SessionError>(SessionError::HandshakeFailed),
        connect_result(address, attempt) is Ok ==> connect_result(address, attempt) == Ok::<
            SessionState,
            SessionError,
        >(SessionState::Streaming),
        connect_result(address, attempt) is Ok <==> port_of(address) is Some && attempt
            == Attempt::Authenticated,
{
}

} // verus!
