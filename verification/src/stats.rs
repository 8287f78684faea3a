//! The registry of live sessions and the counters that describe the
//! server's work.

use crate::address::{Request, RequestView, SocketAddress};
use crate::worker::Counter;
use std::collections::HashMap;
use std::time::SystemTime;
use vstd::prelude::*;

verus! {

broadcast use vstd::std_specs::hash::group_hash_axioms;

/// `std::time::SystemTime`, a point on the wall clock. The library stores
/// such values and hands them back; it never looks inside one.
#[verifier::external_type_specification]
#[verifier::external_body]
pub struct ExSystemTime(SystemTime);

/// `SystemTime::now`: the wall-clock time at the moment of the call. Nothing
/// is claimed of the value.
#[verifier::external_body]
fn system_time_now() -> SystemTime {
    SystemTime::now()
}

/// A live client connection.
#[derive(Debug)]
pub struct Session {
    source_address: SocketAddress,
    request: Option<Request>,
    start_time: SystemTime,
}

/// What a `Session` is in contracts.
pub struct SessionView {
    pub source_address: SocketAddress,
    pub request: Option<RequestView>,
    pub start_time: SystemTime,
}

impl View for Session {
    type V = SessionView;

    closed spec fn view(&self) -> SessionView {
        SessionView {
            source_address: self.source_address,
            request: match self.request {
                Some(request) => Some(request@),
                None => None,
            },
            start_time: self.start_time,
        }
    }
}

impl SessionView {
    /// A session that has just been accepted: no request is known yet.
    pub open spec fn opened(source_address: SocketAddress, start_time: SystemTime) -> SessionView {
        SessionView { source_address, request: None, start_time }
    }

    /// This session once its request is known.
    pub open spec fn with_request(self, request: RequestView) -> SessionView {
        SessionView { request: Some(request), ..self }
    }
}

impl Session {
    /// A session accepted from `source_address` at `start_time`.
    pub fn started_at(source_address: SocketAddress, start_time: SystemTime) -> (session: Session)
        ensures
            session@ == SessionView::opened(source_address, start_time),
    {
        Session { source_address, request: None, start_time }
    }

    /// A session accepted from `source_address` just now. The start time is
    /// whatever the clock says.
    pub fn new(source_address: SocketAddress) -> (session: Session)
        ensures
            session@ == SessionView::opened(source_address, session@.start_time),
    {
        Session::started_at(source_address, system_time_now())
    }

    /// Records the request that the client made.
    pub fn set_request(&mut self, request: &Request)
        ensures
            final(self)@ == old(self)@.with_request(request@),
    {
        self.request = Some(request.clone());
    }

    /// The client's end of the connection.
    pub fn source_address(&self) -> (address: SocketAddress)
        ensures
            address == self@.source_address,
    {
        self.source_address
    }

    /// The request, once the client has made it.
    pub fn request(&self) -> (request: Option<&Request>)
        ensures
            match request {
                Some(r) => self@.request == Some(r@),
                None => self@.request is None,
            },
    {
        self.request.as_ref()
    }

    /// When the session was accepted.
    pub fn start_time(&self) -> (time: SystemTime)
        ensures
            time == self@.start_time,
    {
        self.start_time
    }
}

/// The value of a counter after one more event, held at the largest value
/// that it can take.
pub open spec fn bumped(count: u64) -> u64 {
    if count < u64::MAX {
        (count + 1) as u64
    } else {
        count
    }
}

/// The live sessions as contracts see them.
pub open spec fn session_views(sessions: Map<u64, Session>) -> Map<u64, SessionView> {
    sessions.map_values(|session: Session| session@)
}

/// What a `Stats` is in contracts.
pub struct StatsView {
    pub handshake_failed: u64,
    pub handshake_success: u64,
    pub handshake_authenticated: u64,
    pub handshake_timeout: u64,
    pub session_success: u64,
    pub session_timeout: u64,
    /// The number of live sessions.
    pub in_flight: u64,
    /// The id that the next session gets.
    pub next_request_id: u64,
    /// The live sessions, by id.
    pub sessions: Map<u64, SessionView>,
}

impl StatsView {
    /// The registry of a server that has not accepted anyone yet.
    pub open spec fn fresh() -> StatsView {
        StatsView {
            handshake_failed: 0,
            handshake_success: 0,
            handshake_authenticated: 0,
            handshake_timeout: 0,
            session_success: 0,
            session_timeout: 0,
            in_flight: 0,
            next_request_id: 1,
            sessions: Map::empty(),
        }
    }

    /// The invariant of the registry: `in_flight` is the number of live
    /// sessions, and every live session has an id that was issued, that is
    /// one from 1 up to but not including `next_request_id`.
    pub open spec fn wf(self) -> bool {
        &&& self.sessions.dom().finite()
        &&& self.in_flight == self.sessions.dom().len()
        &&& 1 <= self.next_request_id
        &&& self.in_flight < self.next_request_id
        &&& forall|id: u64| #[trigger]
            self.sessions.contains_key(id) ==> 1 <= id < self.next_request_id
    }

    /// Whether an id is left for one more session.
    pub open spec fn has_id_left(self) -> bool {
        self.next_request_id < u64::MAX
    }

    /// The registry after a session from `source_address` has started at
    /// `start_time`. It got the id `self.next_request_id`.
    pub open spec fn started(self, source_address: SocketAddress, start_time: SystemTime) -> StatsView {
        StatsView {
            in_flight: (self.in_flight + 1) as u64,
            next_request_id: (self.next_request_id + 1) as u64,
            sessions: self.sessions.insert(
                self.next_request_id,
                SessionView::opened(source_address, start_time),
            ),
            ..self
        }
    }

    /// The registry after the session `id` has finished. Nothing changes if
    /// no such session is live.
    pub open spec fn finished(self, id: u64) -> StatsView {
        if self.sessions.contains_key(id) {
            StatsView {
                in_flight: (self.in_flight - 1) as u64,
                sessions: self.sessions.remove(id),
                ..self
            }
        } else {
            self
        }
    }

    /// The registry after the session `id` has made `request`. Nothing
    /// changes if no such session is live.
    pub open spec fn requested(self, id: u64, request: RequestView) -> StatsView {
        if self.sessions.contains_key(id) {
            StatsView { sessions: self.sessions.insert(id, self.sessions[id].with_request(request)), ..self }
        } else {
            self
        }
    }

    /// The registry after `counter` has been bumped.
    pub open spec fn counted(self, counter: Counter) -> StatsView {
        match counter {
            Counter::HandshakeFailed => StatsView {
                handshake_failed: bumped(self.handshake_failed),
                ..self
            },
            Counter::HandshakeSuccess => StatsView {
                handshake_success: bumped(self.handshake_success),
                ..self
            },
            Counter::SessionSuccess => StatsView {
                session_success: bumped(self.session_success),
                ..self
            },
            Counter::SessionTimeout => StatsView {
                session_timeout: bumped(self.session_timeout),
                ..self
            },
        }
    }
}

/// The counters of the server and its live sessions.
#[derive(Debug)]
pub struct Stats {
    handshake_failed: u64,
    handshake_success: u64,
    handshake_authenticated: u64,
    handshake_timeout: u64,
    session_success: u64,
    session_timeout: u64,
    in_flight: u64,
    next_request_id: u64,
    sessions: HashMap<u64, Session>,
}

impl View for Stats {
    type V = StatsView;

    closed spec fn view(&self) -> StatsView {
        StatsView {
            handshake_failed: self.handshake_failed,
            handshake_success: self.handshake_success,
            handshake_authenticated: self.handshake_authenticated,
            handshake_timeout: self.handshake_timeout,
            session_success: self.session_success,
            session_timeout: self.session_timeout,
            in_flight: self.in_flight,
            next_request_id: self.next_request_id,
            sessions: session_views(self.sessions@),
        }
    }
}

/// A copy of the counters, with the live sessions borrowed from the registry,
/// for a caller that wants to write them out.
#[derive(Debug)]
pub struct DumpableStats<'a> {
    pub handshake_failed: u64,
    pub handshake_success: u64,
    pub handshake_timeout: u64,
    pub session_success: u64,
    pub session_timeout: u64,
    pub in_flight: u64,
    pub sessions: &'a HashMap<u64, Session>,
}

/// Adds one to a counter, unless it stands at its largest value.
fn bump(count: u64) -> (next: u64)
    ensures
        next == bumped(count),
{
    count.saturating_add(1)
}

impl Stats {
    /// Whether the registry's invariant holds. Every registry that this
    /// module hands out is well-formed, and every method keeps it so.
    pub open spec fn wf(&self) -> bool {
        self@.wf()
    }

    /// A registry with all counters at zero and no live session. The first
    /// session will get the id 1.
    pub fn new() -> (stats: Stats)
        ensures
            stats@ == StatsView::fresh(),
            stats.wf(),
    {
        let stats = Stats {
            handshake_failed: 0,
            handshake_success: 0,
            handshake_authenticated: 0,
            handshake_timeout: 0,
            session_success: 0,
            session_timeout: 0,
            in_flight: 0,
            next_request_id: 1,
            sessions: HashMap::new(),
        };
        assert(stats@.sessions =~= Map::empty());
        stats
    }

    /// Counts a handshake that failed.
    pub fn handshake_failed(&mut self)
        ensures
            final(self)@ == (StatsView {
                handshake_failed: bumped(old(self)@.handshake_failed),
                ..old(self)@
            }),
    {
        self.handshake_failed = bump(self.handshake_failed);
    }

    /// Counts a handshake in which the client authenticated.
    pub fn handshake_authenticated(&mut self)
        ensures
            final(self)@ == (StatsView {
                handshake_authenticated: bumped(old(self)@.handshake_authenticated),
                ..old(self)@
            }),
    {
        self.handshake_authenticated = bump(self.handshake_authenticated);
    }

    /// Counts a handshake that succeeded.
    pub fn handshake_success(&mut self)
        ensures
            final(self)@ == (StatsView {
                handshake_success: bumped(old(self)@.handshake_success),
                ..old(self)@
            }),
    {
        self.handshake_success = bump(self.handshake_success);
    }

    /// Counts a handshake that timed out.
    pub fn handshake_timeout(&mut self)
        ensures
            final(self)@ == (StatsView {
                handshake_timeout: bumped(old(self)@.handshake_timeout),
                ..old(self)@
            }),
    {
        self.handshake_timeout = bump(self.handshake_timeout);
    }

    /// Counts a session that ended regularly.
    pub fn session_success(&mut self)
        ensures
            final(self)@ == (StatsView {
                session_success: bumped(old(self)@.session_success),
                ..old(self)@
            }),
    {
        self.session_success = bump(self.session_success);
    }

    /// Counts a session that was cut off by the session deadline.
    pub fn session_timeout(&mut self)
        ensures
            final(self)@ == (StatsView {
                session_timeout: bumped(old(self)@.session_timeout),
                ..old(self)@
            }),
    {
        self.session_timeout = bump(self.session_timeout);
    }

    /// Whether an id is left for one more session. Ids are never reused, so
    /// they run out after `u64::MAX - 1` sessions.
    pub fn has_id_left(&self) -> (left: bool)
        ensures
            left == self@.has_id_left(),
    {
        self.next_request_id < u64::MAX
    }

    /// Registers a session that was accepted from `source_address` at
    /// `start_time`, and returns its id: the smallest id that no session has
    /// had before.
    pub fn start_request_at(&mut self, source_address: SocketAddress, start_time: SystemTime) -> (id:
        u64)
        requires
            old(self).wf(),
            old(self)@.has_id_left(),
        ensures
            id == old(self)@.next_request_id,
            final(self)@ == old(self)@.started(source_address, start_time),
            final(self).wf(),
    {
        let id = self.next_request_id;
        let session = Session::started_at(source_address, start_time);
        self.in_flight = self.in_flight + 1;
        self.next_request_id = id + 1;
        self.sessions.insert(id, session);
        assert(self@.sessions =~= old(self)@.sessions.insert(
            id,
            SessionView::opened(source_address, start_time),
        ));
        assert(self@.sessions.dom() =~= old(self)@.sessions.dom().insert(id));
        id
    }

    /// Registers a session that was accepted from `source_address` just now,
    /// and returns its id. The start time is whatever the clock says.
    pub fn start_request(&mut self, source_address: SocketAddress) -> (id: u64)
        requires
            old(self).wf(),
            old(self)@.has_id_left(),
        ensures
            id == old(self)@.next_request_id,
            final(self)@.sessions.contains_key(id),
            final(self)@ == old(self)@.started(
                source_address,
                final(self)@.sessions[id].start_time,
            ),
            final(self).wf(),
    {
        self.start_request_at(source_address, system_time_now())
    }

    /// Removes the session `request_id` from the registry. Nothing changes
    /// if no such session is live.
    pub fn finish_request(&mut self, request_id: u64)
        requires
            old(self).wf(),
        ensures
            final(self)@ == old(self)@.finished(request_id),
            final(self).wf(),
    {
        let removed = self.sessions.remove(&request_id);
        if removed.is_some() {
            assert(old(self)@.sessions.dom().contains(request_id));
            assert(self@.sessions =~= old(self)@.sessions.remove(request_id));
            assert(self@.sessions.dom() =~= old(self)@.sessions.dom().remove(request_id));
            self.in_flight = self.in_flight - 1;
        } else {
            assert(self@.sessions =~= old(self)@.sessions);
        }
    }

    /// Records the request of the session `request_id`. Nothing changes if
    /// no such session is live.
    pub fn set_request(&mut self, request_id: u64, request: &Request)
        requires
            old(self).wf(),
        ensures
            final(self)@ == old(self)@.requested(request_id, request@),
            final(self).wf(),
    {
        match self.sessions.remove(&request_id) {
            Some(mut session) => {
                session.set_request(request);
                self.sessions.insert(request_id, session);
                assert(self@.sessions =~= old(self)@.sessions.insert(
                    request_id,
                    old(self)@.sessions[request_id].with_request(request@),
                ));
                assert(self@.sessions.dom() =~= old(self)@.sessions.dom());
            },
            None => {
                assert(self@.sessions =~= old(self)@.sessions);
            },
        }
    }

    /// The counters and the live sessions as they stand. The snapshot holds
    /// as many sessions as its `in_flight` says.
    pub fn snapshot(&self) -> (snapshot: DumpableStats<'_>)
        requires
            self.wf(),
        ensures
            snapshot.handshake_failed == self@.handshake_failed,
            snapshot.handshake_success == self@.handshake_success,
            snapshot.handshake_timeout == self@.handshake_timeout,
            snapshot.session_success == self@.session_success,
            snapshot.session_timeout == self@.session_timeout,
            snapshot.in_flight == self@.in_flight,
            session_views(snapshot.sessions@) == self@.sessions,
            snapshot.sessions@.dom().finite(),
            snapshot.sessions@.len() == snapshot.in_flight,
    {
        assert(self.sessions@.dom() =~= self@.sessions.dom());
        DumpableStats {
            handshake_failed: self.handshake_failed,
            handshake_success: self.handshake_success,
            handshake_timeout: self.handshake_timeout,
            session_success: self.session_success,
            session_timeout: self.session_timeout,
            in_flight: self.in_flight,
            sessions: &self.sessions,
        }
    }

    /// Bumps the counter that a transition of the session state machine
    /// names.
    pub fn count(&mut self, counter: Counter)
        ensures
            final(self)@ == old(self)@.counted(counter),
    {
        match counter {
            Counter::HandshakeFailed => self.handshake_failed(),
            Counter::HandshakeSuccess => self.handshake_success(),
            Counter::SessionSuccess => self.session_success(),
            Counter::SessionTimeout => self.session_timeout(),
        }
    }
}

/// One operation on the registry.
pub enum RegistryOp {
    /// A session from this address starts at this time.
    Start(SocketAddress, SystemTime),
    /// The session with this id finishes.
    Finish(u64),
    /// The session with this id makes this request.
    Request(u64, RequestView),
    /// This counter is bumped.
    Count(Counter),
}

impl StatsView {
    /// The registry after `op`.
    pub open spec fn applied(self, op: RegistryOp) -> StatsView {
        match op {
            RegistryOp::Start(source_address, start_time) => self.started(
                source_address,
                start_time,
            ),
            RegistryOp::Finish(id) => self.finished(id),
            RegistryOp::Request(id, request) => self.requested(id, request),
            RegistryOp::Count(counter) => self.counted(counter),
        }
    }

    /// The registry after `ops`, one after the other.
    pub open spec fn after(self, ops: Seq<RegistryOp>) -> StatsView
        decreases ops.len(),
    {
        if ops.len() == 0 {
            self
        } else {
            self.applied(ops[0]).after(ops.drop_first())
        }
    }

    /// The ids that the starts among `ops` are given, in the order of the
    /// starts.
    pub open spec fn issued(self, ops: Seq<RegistryOp>) -> Seq<u64>
        decreases ops.len(),
    {
        if ops.len() == 0 {
            Seq::empty()
        } else {
            let rest = self.applied(ops[0]).issued(ops.drop_first());
            if ops[0] is Start {
                seq![self.next_request_id] + rest
            } else {
                rest
            }
        }
    }
}

/// One operation keeps the registry's invariant, and moves the next id up by
/// one if it is a start and not at all otherwise.
pub proof fn lemma_operation_keeps_invariant(stats: StatsView, op: RegistryOp)
    requires
        stats.wf(),
        op is Start ==> stats.has_id_left(),
    ensures
        stats.applied(op).wf(),
        stats.applied(op).in_flight == stats.applied(op).sessions.dom().len(),
        stats.applied(op).next_request_id == stats.next_request_id + (if op is Start {
            1int
        } else {
            0int
        }),
{
    match op {
        RegistryOp::Start(source_address, start_time) => {
            assert(!stats.sessions.contains_key(stats.next_request_id));
        },
        RegistryOp::Finish(id) => {},
        RegistryOp::Request(id, request) => {
            if stats.sessions.contains_key(id) {
                assert(stats.applied(op).sessions.dom() =~= stats.sessions.dom());
            }
        },
        RegistryOp::Count(counter) => {},
    }
}

/// No operation ever lowers a counter of handshakes or of sessions' ends.
pub proof fn lemma_counters_never_decrease(stats: StatsView, op: RegistryOp)
    ensures
        stats.applied(op).handshake_failed >= stats.handshake_failed,
        stats.applied(op).handshake_success >= stats.handshake_success,
        stats.applied(op).handshake_authenticated >= stats.handshake_authenticated,
        stats.applied(op).handshake_timeout >= stats.handshake_timeout,
        stats.applied(op).session_success >= stats.session_success,
        stats.applied(op).session_timeout >= stats.session_timeout,
{
}

/// Whatever sessions start and finish, in whatever order, `in_flight` is the
/// number of live sessions after each operation, as long as ids are left
/// for the starts.
pub proof fn lemma_in_flight_counts_live_sessions(stats: StatsView, ops: Seq<RegistryOp>)
    requires
        stats.wf(),
        stats.next_request_id + ops.len() <= u64::MAX,
    ensures
        stats.after(ops).wf(),
        stats.after(ops).in_flight == stats.after(ops).sessions.dom().len(),
    decreases ops.len(),
{
    if ops.len() > 0 {
        lemma_operation_keeps_invariant(stats, ops[0]);
        lemma_in_flight_counts_live_sessions(stats.applied(ops[0]), ops.drop_first());
    }
}

/// The ids that a registry issues are at least 1, none below the id that
/// was next at the outset, and each is greater than all that were issued
/// before it, as long as ids are left for the starts.
pub proof fn lemma_issued_ids_increase(stats: StatsView, ops: Seq<RegistryOp>)
    requires
        stats.wf(),
        stats.next_request_id + ops.len() <= u64::MAX,
    ensures
        forall|i: int|
            0 <= i < stats.issued(ops).len() ==> 1 <= stats.next_request_id
                <= #[trigger] stats.issued(ops)[i],
        forall|i: int, j: int|
            0 <= i < j < stats.issued(ops).len() ==> stats.issued(ops)[i] < stats.issued(ops)[j],
    decreases ops.len(),
{
    if ops.len() > 0 {
        let next = stats.applied(ops[0]);
        let rest = next.issued(ops.drop_first());
        lemma_operation_keeps_invariant(stats, ops[0]);
        lemma_issued_ids_increase(next, ops.drop_first());
        if ops[0] is Start {
            let ids = stats.issued(ops);
            assert(ids == seq![stats.next_request_id] + rest);
            assert forall|i: int| 0 <= i < ids.len() implies stats.next_request_id
                <= #[trigger] ids[i] by {
                if i > 0 {
                    assert(ids[i] == rest[i - 1]);
                }
            }
            assert forall|i: int, j: int| 0 <= i < j < ids.len() implies ids[i] < ids[j] by {
                assert(ids[j] == rest[j - 1]);
                if i > 0 {
                    assert(ids[i] == rest[i - 1]);
                }
            }
        }
    }
}

} // verus!
