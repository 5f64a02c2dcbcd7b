use vstd::prelude::*;
use crate::error::{classify, streaming_error_of, termination_of, FailureCause, SessionError, Termination};
use crate::event::{dispatch, notification_of, notifications_of, Notification, WireEvent};
use crate::params::{connect_result, Attempt, SessionConnector};
use crate::session::{Incoming, Session, SessionState};

verus! {

/// What the read loop did with one session.
#[derive(Debug)]
pub struct Report {
    /// The notifications handed to the caller, in the order of the events.
    pub notifications: Vec<Notification>,
    /// How the loop ended: with the classified failure of a read, or with
    /// nothing where the caller stopped it before any read failed.
    pub ending: Option<Termination>,
    /// The number of reads that were issued.
    pub reads: usize,
}

/// Holds where the first `k` reads of `script` gave events and the next
/// one, if there is a next one, failed.
pub open spec fn stops_at(script: Seq<Incoming>, k: int) -> bool {
    &&& 0 <= k <= script.len()
    &&& forall|j: int| 0 <= j < k ==> (#[trigger] script[j]) is Event
    &&& k < script.len() ==> script[k] is Failure
}

/// The notifications for the first `k` reads of `script`.
pub open spec fn delivered(script: Seq<Incoming>, k: int) -> Seq<Notification> {
    Seq::new(k as nat, |i: int| notification_of(script[i]->Event_0))
}

/// How the loop ends when the first `k` reads of `script` gave events.
pub open spec fn ending_of(script: Seq<Incoming>, k: int) -> Option<Termination> {
    if 0 <= k < script.len() {
        Some(termination_of(streaming_error_of(script[k]->Failure_0)))
    } else {
        None
    }
}

/// The number of reads issued when the first `k` reads of `script` gave
/// events: the failing read counts, and nothing is read after it.
pub open spec fn reads_of(script: Seq<Incoming>, k: int) -> int {
    if k < script.len() {
        k + 1
    } else {
        k
    }
}

/// Holds where `report` is what the read loop gives for `script`.
pub open spec fn reports(script: Seq<Incoming>, report: Report) -> bool {
    let k = report.notifications@.len() as int;
    &&& stops_at(script, k)
    &&& report.notifications@ == delivered(script, k)
    &&& report.ending == ending_of(script, k)
    &&& report.reads == reads_of(script, k)
}

/// Runs the read loop of a streaming session over what its reads come back
/// with, in their order.  Each event is turned into its notification
/// before the next read is taken; the first failure is classified and ends
/// the loop, and nothing after it is read.  Where no read fails, the loop
/// ends with the last one.  The session is then shut down, once.
pub fn run_session(session: &mut Session, script: &Vec<Incoming>) -> (report: Report)
    requires
        old(session).spec_state() == SessionState::Streaming,
    ensures
        reports(script@, report),
        final(session).spec_state() == SessionState::Closed,
{
    let mut notifications: Vec<Notification> = Vec::new();
    let mut ending: Option<Termination> = None;
    let mut reads: usize = 0;
    let mut i: usize = 0;
    let mut stopped = false;
    while i < script.len() && !stopped
        invariant
            i <= script@.len(),
            notifications@.len() == i,
            forall|j: int| 0 <= j < i ==> (#[trigger] script@[j]) is Event,
            forall|j: int|
                0 <= j < i ==> notifications@[j] == notification_of(
                    (#[trigger] script@[j])->Event_0,
                ),
            stopped <==> ending is Some,
            stopped ==> i < script@.len() && script@[i as int] is Failure,
            stopped ==> ending == ending_of(script@, i as int),
            stopped ==> reads == i + 1,
            !stopped ==> reads == i,
            !stopped ==> session.spec_state() == SessionState::Streaming,
            stopped ==> session.spec_state() == SessionState::Disconnected,
        decreases script@.len() - i + (if stopped { 0int } else { 1int }),
    {
        reads = reads + 1;
        match session.read(&script[i]) {
            Ok(event) => {
                notifications.push(dispatch(event));
                i = i + 1;
            },
            Err(error) => {
                ending = Some(classify(error));
                stopped = true;
            },
        }
    }
    let closed = session.shutdown();
    assert(closed is Ok);
    assert(notifications@ =~= delivered(script@, i as int));
    Report { notifications, ending, reads }
}

/// Takes one connection attempt to its end: what `connect` gives for the
/// attempt, and for a session the report of its read loop over `script`.
pub fn connect_and_run(connector: &SessionConnector, attempt: Attempt, script: &Vec<Incoming>) -> (r:
    Result<Report, SessionError>)
    ensures
        match r {
            Ok(report) => connect_result(connector@.address, attempt) is Ok && reports(
                script@,
                report,
            ),
            Err(error) => connect_result(connector@.address, attempt) == Err::<
                SessionState,
                SessionError,
            >(error),
        },
{
    match connector.connect(attempt) {
        Ok(session) => {
            let mut session = session;
            Ok(run_session(&mut session, script))
        },
        Err(error) => Err(error),
    }
}

/// A script has one stopping point: two reports for the same script hold
/// the same number of notifications, and so the same notifications, the
/// same ending and the same number of reads.
pub proof fn law_report_is_determined(script: Seq<Incoming>, a: Report, b: Report)
    requires
        reports(script, a),
        reports(script, b),
    ensures
        a.notifications@ == b.notifications@,
        a.ending == b.ending,
        a.reads == b.reads,
{
    let ka = a.notifications@.len() as int;
    let kb = b.notifications@.len() as int;
    if ka < kb {
        assert(script[ka] is Event);
    }
    if kb < ka {
        assert(script[kb] is Event);
    }
}

/// Where every read gives an event, each event is notified exactly once
/// and in the order of arrival, and the loop ends without a failure.
pub proof fn law_events_delivered_in_order(
    events: Seq<WireEvent>,
    script: Seq<Incoming>,
    report: Report,
)
    requires
        script == events.map_values(|e: WireEvent| Incoming::Event(e)),
        reports(script, report),
    ensures
        report.notifications@ == notifications_of(events),
        report.ending is None,
        report.reads == events.len(),
{
    let k = report.notifications@.len() as int;
    if k < script.len() {
        assert(script[k] is Event);
    }
    assert(report.notifications@ =~= notifications_of(events));
}

/// Where the events `before` are followed by a failed read, exactly those
/// events are notified, in their order, the loop ends with the
/// classification of that failure whatever follows it, and the failing read
/// is the last one.  A disconnect asked for by the peer ends the loop as
/// expected; every other cause ends it as a failure.
pub proof fn law_first_failure_ends_loop(
    before: Seq<WireEvent>,
    cause: FailureCause,
    after: Seq<Incoming>,
    report: Report,
)
    requires
        reports(
            before.map_values(|e: WireEvent| Incoming::Event(e)).push(Incoming::Failure(cause))
                + after,
            report,
        ),
    ensures
        report.notifications@ == notifications_of(before),
        report.ending == Some(termination_of(streaming_error_of(cause))),
        report.reads == before.len() + 1,
        cause == FailureCause::PeerDisconnect <==> report.ending == Some(Termination::Graceful),
{
    let script = before.map_values(|e: WireEvent| Incoming::Event(e)).push(
        Incoming::Failure(cause),
    ) + after;
    let n = before.len() as int;
    let k = report.notifications@.len() as int;
    assert(script[n] == Incoming::Failure(cause));
    assert(forall|j: int| 0 <= j < n ==> script[j] == Incoming::Event(before[j]));
    if k < n {
        assert(script[k] is Event);
    }
    if k > n {
        assert(script[n] is Event);
    }
    assert(report.notifications@ =~= notifications_of(before));
}

} // verus!
