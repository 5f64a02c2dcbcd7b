use vstd::prelude::*;
use crate::error::{
    cause_of, classify, failure_cause, streaming_error, streaming_error_of, termination_of,
    FailureCause, SessionError, Termination,
};
use crate::event::{
    decoded_event, dispatch, notification_of, wire_event, Notification, WireEvent,
};

verus! {

/// Where a session stands in its life.
#[derive(Clone, Copy, Debug, PartialEq, Eq, Structural)]
pub enum SessionState {
    /// The transport is being established.
    Connecting,
    /// The transport is open and the handshake is under way.
    Authenticating,
    /// The handshake is done; events can be read.
    Streaming,
    /// A read failed; only shutdown is left.
    Disconnected,
    /// The transport has been released.
    Closed,
}

/// What one blocking read on the transport came back with.
#[derive(Clone, Debug)]
pub enum Incoming {
    /// The next event was decoded.
    Event(WireEvent),
    /// The read failed.
    Failure(FailureCause),
}

/// The live session: the caller holds the transport next to it and acts on
/// what the session's methods return.
#[derive(Debug)]
pub struct Session {
    state: SessionState,
}

/// The position of a state in the order in which a session passes through
/// its states.
pub open spec fn rank(state: SessionState) -> nat {
    match state {
        SessionState::Connecting => 0,
        SessionState::Authenticating => 1,
        SessionState::Streaming => 2,
        SessionState::Disconnected => 3,
        SessionState::Closed => 4,
    }
}

/// The state after a read that came back with `incoming`.
pub open spec fn after_read(state: SessionState, incoming: Incoming) -> SessionState {
    if state == SessionState::Streaming && incoming is Failure {
        SessionState::Disconnected
    } else {
        state
    }
}

/// What a read that came back with `incoming` hands to the caller.
pub open spec fn read_result(state: SessionState, incoming: Incoming) -> Result<
    WireEvent,
    SessionError,
> {
    if state != SessionState::Streaming {
        Err(SessionError::ProtocolViolation)
    } else {
        match incoming {
            Incoming::Event(event) => Ok(event),
            Incoming::Failure(cause) => Err(streaming_error_of(cause)),
        }
    }
}

/// The state after a shutdown.
pub open spec fn after_shutdown(state: SessionState) -> SessionState {
    SessionState::Closed
}

/// What a shutdown in `state` returns.
pub open spec fn shutdown_result(state: SessionState) -> Result<(), SessionError> {
    if state == SessionState::Closed {
        Err(SessionError::ProtocolViolation)
    } else {
        Ok(())
    }
}

/// One thing that happens to a session.
pub enum Step {
    /// The transport was opened.
    LinkOpened,
    /// The handshake was completed.
    Authenticated,
    /// A read came back.
    Read(Incoming),
    /// The session was shut down.
    Shutdown,
}

/// The state in which `step` leaves a session that was in `state`.  A step
/// that does not belong to the state leaves it as it is.
pub open spec fn next_state(state: SessionState, step: Step) -> SessionState {
    match step {
        Step::LinkOpened => if state == SessionState::Connecting {
            SessionState::Authenticating
        } else {
            state
        },
        Step::Authenticated => if state == SessionState::Authenticating {
            SessionState::Streaming
        } else {
            state
        },
        Step::Read(incoming) => after_read(state, incoming),
        Step::Shutdown => after_shutdown(state),
    }
}

/// The state of a session that started in `start` after `steps`, taken in
/// their order.
pub open spec fn state_after(start: SessionState, steps: Seq<Step>) -> SessionState
    decreases steps.len(),
{
    if steps.len() == 0 {
        start
    } else {
        next_state(state_after(start, steps.drop_last()), steps.last())
    }
}

impl Session {
    /// The state of the session.
    pub closed spec fn spec_state(&self) -> SessionState {
        self.state
    }

    /// A session whose transport is being established.
    pub(crate) fn connecting() -> (s: Session)
        ensures
            s.spec_state() == SessionState::Connecting,
    {
        Session { state: SessionState::Connecting }
    }

    /// Records that the transport is open.
    pub(crate) fn link_opened(&mut self)
        requires
            old(self).spec_state() == SessionState::Connecting,
        ensures
            final(self).spec_state() == next_state(old(self).spec_state(), Step::LinkOpened),
            final(self).spec_state() == SessionState::Authenticating,
    {
        self.state = SessionState::Authenticating;
    }

    /// Records that the handshake is complete.
    pub(crate) fn authenticated(&mut self)
        requires
            old(self).spec_state() == SessionState::Authenticating,
        ensures
            final(self).spec_state() == next_state(old(self).spec_state(), Step::Authenticated),
            final(self).spec_state() == SessionState::Streaming,
    {
        self.state = SessionState::Streaming;
    }

    /// The state of the session.
    #[verifier::when_used_as_spec(spec_state)]
    pub fn state(&self) -> (s: SessionState)
        ensures
            s == self.spec_state(),
    {
        self.state
    }

    /// Whether events can be read.
    pub fn is_streaming(&self) -> (b: bool)
        ensures
            b == (self.spec_state() == SessionState::Streaming),
    {
        self.state == SessionState::Streaming
    }

    /// Takes what one blocking read came back with.  While streaming, an
    /// event is handed on and the session goes on streaming; a failure is
    /// mapped to its error and the session is disconnected.  In every other
    /// state the read is refused and the state stays as it is.
    pub fn read<'a>(&mut self, incoming: &'a Incoming) -> (r: Result<&'a WireEvent, SessionError>)
        ensures
            final(self).spec_state() == next_state(old(self).spec_state(), Step::Read(*incoming)),
            match r {
                Ok(event) => read_result(old(self).spec_state(), *incoming) == Ok::<
                    WireEvent,
                    SessionError,
                >(*event),
                Err(error) => read_result(old(self).spec_state(), *incoming) == Err::<
                    WireEvent,
                    SessionError,
                >(error),
            },
    {
        if self.state != SessionState::Streaming {
            return Err(SessionError::ProtocolViolation);
        }
        match incoming {
            Incoming::Event(event) => Ok(event),
            Incoming::Failure(cause) => {
                self.state = SessionState::Disconnected;
                Err(streaming_error(*cause))
            },
        }
    }

    /// Takes an event that the protocol layer decoded and gives the
    /// notification for it.  While the session is streaming the result is
    /// the notification that belongs to the decoded event; in every other
    /// state the event is refused.  The state does not change.
    pub fn receive(&mut self, event: rdp::core::event::RdpEvent) -> (r: Result<
        Notification,
        SessionError,
    >)
        ensures
            final(self).spec_state() == old(self).spec_state(),
            old(self).spec_state() == SessionState::Streaming ==> r == Ok::<
                Notification,
                SessionError,
            >(notification_of(decoded_event(event))),
            old(self).spec_state() != SessionState::Streaming ==> r == Err::<
                Notification,
                SessionError,
            >(SessionError::ProtocolViolation),
    {
        let incoming = Incoming::Event(wire_event(event));
        match self.read(&incoming) {
            Ok(decoded) => Ok(dispatch(decoded)),
            Err(error) => Err(error),
        }
    }

    /// Takes the error with which a read of the protocol layer failed and
    /// says how the session ends.  A streaming session is disconnected by
    /// it, and the report is the classification of the error that belongs
    /// to the cause of the failure; in every other state the report is a
    /// protocol violation and the state stays as it is.
    pub fn interrupted(&mut self, error: &rdp::model::error::Error) -> (report: Termination)
        ensures
            final(self).spec_state() == next_state(
                old(self).spec_state(),
                Step::Read(Incoming::Failure(cause_of(*error))),
            ),
            old(self).spec_state() == SessionState::Streaming ==> final(self).spec_state()
                == SessionState::Disconnected && report == termination_of(
                streaming_error_of(cause_of(*error)),
            ),
            old(self).spec_state() != SessionState::Streaming ==> final(self).spec_state() == old(
                self,
            ).spec_state() && report == Termination::Failure(SessionError::ProtocolViolation),
    {
        let incoming = Incoming::Failure(failure_cause(error));
        match self.read(&incoming) {
            Ok(_) => Termination::Failure(SessionError::ProtocolViolation),
            Err(e) => classify(e),
        }
    }

    /// Closes the session.  The first call, in whatever state, succeeds, and
    /// the caller then releases the transport; every later call fails and
    /// leaves the session closed.
    pub fn shutdown(&mut self) -> (r: Result<(), SessionError>)
        ensures
            final(self).spec_state() == next_state(old(self).spec_state(), Step::Shutdown),
            final(self).spec_state() == SessionState::Closed,
            r == shutdown_result(old(self).spec_state()),
            r is Ok <==> old(self).spec_state() != SessionState::Closed,
    {
        if self.state == SessionState::Closed {
            Err(SessionError::ProtocolViolation)
        } else {
            self.state = SessionState::Closed;
            Ok(())
        }
    }
}

/// No step takes a session back: the state after it is the one before or
/// a later one.
pub proof fn law_states_only_advance(state: SessionState, step: Step)
    ensures
        rank(next_state(state, step)) >= rank(state),
        next_state(state, step) != state ==> rank(next_state(state, step)) > rank(state),
{
}

/// Over any run of steps a session only moves forward.
pub proof fn lemma_run_advances(start: SessionState, steps: Seq<Step>, i: int)
    requires
        0 <= i <= steps.len(),
    ensures
        rank(state_after(start, steps.take(i))) <= rank(state_after(start, steps)),
    decreases steps.len(),
{
    if i == steps.len() {
        assert(steps.take(i) =~= steps);
    } else {
        lemma_run_advances(start, steps.drop_last(), i);
        assert(steps.drop_last().take(i) =~= steps.take(i));
        law_states_only_advance(state_after(start, steps.drop_last()), steps.last());
    }
}

/// No state is entered again once it was left: where a session is in the
/// same state after `i` and after `k` of its steps, it was in that state
/// all the time between them.
pub proof fn law_no_state_revisited(
    start: SessionState,
    steps: Seq<Step>,
    i: int,
    j: int,
    k: int,
)
    requires
        0 <= i <= j <= k <= steps.len(),
        state_after(start, steps.take(i)) == state_after(start, steps.take(k)),
    ensures
        state_after(start, steps.take(j)) == state_after(start, steps.take(i)),
{
    lemma_run_advances(start, steps.take(j), i);
    assert(steps.take(j).take(i) =~= steps.take(i));
    lemma_run_advances(start, steps.take(k), j);
    assert(steps.take(k).take(j) =~= steps.take(j));
}

/// An event is handed out only while the session is streaming; a closed
/// session stays closed and hands out nothing.
pub proof fn law_events_only_while_streaming(state: SessionState, incoming: Incoming)
    ensures
        read_result(state, incoming) is Ok ==> state == SessionState::Streaming && incoming
            is Event,
        after_read(SessionState::Closed, incoming) == SessionState::Closed,
        read_result(SessionState::Closed, incoming) is Err,
{
}

/// Of two shutdowns in a row the second fails, whatever the state before
/// the first was, and the session is closed after each.
pub proof fn law_second_shutdown_fails(state: SessionState)
    ensures
        after_shutdown(state) == SessionState::Closed,
        shutdown_result(after_shutdown(state)) == Err::<(), SessionError>(
            SessionError::ProtocolViolation,
        ),
        after_shutdown(after_shutdown(state)) == SessionState::Closed,
        shutdown_result(state) is Ok <==> state != SessionState::Closed,
{
}

} // verus!
