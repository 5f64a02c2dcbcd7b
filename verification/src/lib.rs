//! Session driver for a remote-desktop client.
//!
//! The crate holds the lifecycle of one session: how connection parameters
//! are assembled, how the outcome of a connection attempt is classified, how
//! each decoded event becomes exactly one notification, how a failure ends
//! the read loop, and how the session is closed exactly once.  Blocking work
//! on the transport is left to the caller, who hands in what it observed.

pub mod address;
pub mod error;
pub mod event;
pub mod params;
pub mod session;
pub mod driver;

pub use address::parse_port;
pub use error::{classify, streaming_error, FailureCause, SessionError, Termination};
pub use event::{dispatch, dispatch_all, Notification, WireEvent};
pub use params::{Attempt, ConnectionParams, SessionConnector};
pub use session::{Incoming, Session, SessionState};
pub use driver::{connect_and_run, run_session, Report};
