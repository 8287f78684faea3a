//! The state machine of one client connection.
//!
//! A driver owns the sockets. It starts in `State::AwaitGreeting` by reading
//! a greeting, reports what happened as an `Event`, and carries out the
//! `Transition` that `step` answers with: it logs the event, bumps the
//! counter, sends the frame and obeys the command.

use crate::address::{Request, SocketAddress};
use crate::greeting::{greeting_frame, greeting_outcome, Greeting, MAX_METHODS};
use crate::greeting::{lemma_greeting_lacking_no_auth, lemma_greeting_offering_no_auth};
use crate::reply::{Frame, Reply, METHOD_NO_AUTH};
use crate::request::RequestVerdict;
use vstd::prelude::*;

verus! {

/// Seconds allowed for a whole session, from accepting the client to the end
/// of the relay.
pub const SESSION_DEADLINE_SECS: u64 = 3600;

/// One of the two directions in which the relay copies bytes.
#[derive(Clone, Copy, Debug, PartialEq, Eq, Structural)]
pub enum Direction {
    /// From the client to the destination.
    Outbound,
    /// From the destination to the client.
    Inbound,
}

/// How a session ended.
#[derive(Clone, Copy, Debug, PartialEq, Eq, Structural)]
pub enum Outcome {
    /// Both directions of the relay reached their end without an error.
    Success,
    /// The session was refused or broke down.
    Failure,
    /// The session outlived `SESSION_DEADLINE_SECS`.
    Timeout,
}

/// Where a session stands.
#[derive(Clone, Copy, Debug, PartialEq, Eq, Structural)]
pub enum State {
    /// The client has connected; its greeting is awaited.
    AwaitGreeting,
    /// The greeting was accepted; the request is awaited.
    AwaitRequest,
    /// The request was read; the destination is being chosen and connected.
    Connecting,
    /// Bytes are copied in both directions.
    Relaying,
    /// The direction `finished` has ended, `clean` says whether without an
    /// error; bytes are still copied in the other direction.
    HalfClosed { finished: Direction, clean: bool },
    /// The session is over.
    Done(Outcome),
}

/// A statistics counter that a transition may bump.
#[derive(Clone, Copy, Debug, PartialEq, Eq, Structural)]
pub enum Counter {
    HandshakeFailed,
    HandshakeSuccess,
    SessionSuccess,
    SessionTimeout,
}

/// How grave a log event is.
#[derive(Clone, Copy, Debug, PartialEq, Eq, Structural)]
pub enum Severity {
    Debug,
    Warn,
    Error,
}

/// An event in the life of a session that is worth a line in the log. The
/// driver logs `Accepted` itself when it takes the connection; every other
/// event is named by the transition at which it happens.
#[derive(Clone, Copy, Debug, PartialEq, Eq, Structural)]
pub enum LogEvent {
    Accepted,
    HandshakeFailed,
    HandshakeOk,
    RequestParsed,
    Denied,
    ConnectTimeout,
    Connected,
    SessionOk,
    SessionTimeout,
    IoError,
}

impl LogEvent {
    /// The severity at which this event is logged: what went as intended is
    /// for debugging, what a client or a destination caused is a warning, and
    /// what broke is an error.
    pub open spec fn level(self) -> Severity {
        match self {
            LogEvent::Accepted
            | LogEvent::HandshakeOk
            | LogEvent::RequestParsed
            | LogEvent::Connected
            | LogEvent::SessionOk => Severity::Debug,
            LogEvent::Denied | LogEvent::ConnectTimeout | LogEvent::HandshakeFailed => Severity::Warn,
            LogEvent::IoError | LogEvent::SessionTimeout => Severity::Error,
        }
    }

    /// The severity at which this event is logged.
    pub fn severity(&self) -> (severity: Severity)
        ensures
            severity == self.level(),
    {
        match self {
            LogEvent::Accepted
            | LogEvent::HandshakeOk
            | LogEvent::RequestParsed
            | LogEvent::Connected
            | LogEvent::SessionOk => Severity::Debug,
            LogEvent::Denied | LogEvent::ConnectTimeout | LogEvent::HandshakeFailed => Severity::Warn,
            LogEvent::IoError | LogEvent::SessionTimeout => Severity::Error,
        }
    }
}

/// What the driver reports to the state machine.
#[derive(Debug, PartialEq, Eq)]
pub enum Event {
    /// The greeting was decoded.
    Greeting(Greeting),
    /// The request frame was decoded.
    Request(RequestVerdict),
    /// The policy permits none of the candidate addresses.
    Denied,
    /// The name did not resolve, or the connection could not be opened.
    ConnectFailed,
    /// The connect deadline passed first.
    ConnectTimedOut,
    /// The outbound connection stands; this is its local end.
    Connected(SocketAddress),
    /// The source of this direction of the relay reached its end.
    Eof(Direction),
    /// This direction of the relay ended on an I/O error.
    RelayError(Direction),
    /// Reading from or writing to the client failed outside the relay.
    IoError,
    /// The session deadline passed.
    SessionTimedOut,
}

/// What the driver is to do once the frame is sent and the counter bumped.
#[derive(Debug, PartialEq, Eq)]
pub enum Command {
    /// Read the request frame from the client.
    ReadRequest,
    /// Record the request in the session's entry, then choose the
    /// destination and connect to it, all within the connect deadline.
    Connect(Request),
    /// Start copying bytes in both directions.
    Relay,
    /// Shut down the write side of the socket that this direction wrote to,
    /// and go on copying in the other direction.
    HalfClose(Direction),
    /// Close both connections; the session is over.
    Close,
    /// Nothing: the session was over before the event came.
    Ignore,
}

/// The answer of the state machine to one event.
#[derive(Debug, PartialEq, Eq)]
pub struct Transition {
    /// The state after the event.
    pub next: State,
    /// The frame to send to the client, if any.
    pub send: Option<Frame>,
    /// The counter to bump, if any.
    pub bump: Option<Counter>,
    /// The event to log, if any.
    pub log: Option<LogEvent>,
    /// What to do next.
    pub command: Command,
}

impl Direction {
    /// The other direction.
    pub open spec fn opposite(self) -> Direction {
        match self {
            Direction::Outbound => Direction::Inbound,
            Direction::Inbound => Direction::Outbound,
        }
    }
}

/// The transition that ends a session in failure, with `reply` sent to the
/// client if there is one, and `log` logged if there is one.
pub open spec fn fail(reply: Option<Reply>, log: Option<LogEvent>) -> Transition {
    Transition {
        next: State::Done(Outcome::Failure),
        send: match reply {
            Some(reply) => Some(Frame::Failure(reply)),
            None => None,
        },
        bump: None,
        log,
        command: Command::Close,
    }
}

/// The transition table.
///
/// A finished session ignores every event. In any other state the session
/// deadline ends the session as timed out, and an I/O error on the client's
/// socket ends it as failed, without a reply. An event that the state does
/// not await ends the session as failed, without a reply and without a line
/// in the log.
///
/// A request that is refused for what it asks is answered and not logged.
/// An error in one direction of the relay is logged when it happens and
/// fails the session once the other direction has ended too.
pub open spec fn transition(state: State, event: Event) -> Transition {
    match (state, event) {
        (State::Done(outcome), _) => Transition {
            next: State::Done(outcome),
            send: None,
            bump: None,
            log: None,
            command: Command::Ignore,
        },
        (_, Event::SessionTimedOut) => Transition {
            next: State::Done(Outcome::Timeout),
            send: None,
            bump: Some(Counter::SessionTimeout),
            log: Some(LogEvent::SessionTimeout),
            command: Command::Close,
        },
        (_, Event::IoError) => fail(None, Some(LogEvent::IoError)),
        (State::AwaitGreeting, Event::Greeting(Greeting::Accepted)) => Transition {
            next: State::AwaitRequest,
            send: Some(Frame::MethodSelected),
            bump: Some(Counter::HandshakeSuccess),
            log: Some(LogEvent::HandshakeOk),
            command: Command::ReadRequest,
        },
        (State::AwaitGreeting, Event::Greeting(Greeting::Refused)) => Transition {
            next: State::Done(Outcome::Failure),
            send: Some(Frame::NoAcceptableMethod),
            bump: Some(Counter::HandshakeFailed),
            log: Some(LogEvent::HandshakeFailed),
            command: Command::Close,
        },
        (State::AwaitRequest, Event::Request(RequestVerdict::Connect(request))) => Transition {
            next: State::Connecting,
            send: None,
            bump: None,
            log: Some(LogEvent::RequestParsed),
            command: Command::Connect(request),
        },
        (State::AwaitRequest, Event::Request(RequestVerdict::Rejected(reply))) => fail(
            Some(reply),
            None,
        ),
        (State::Connecting, Event::Connected(local)) => Transition {
            next: State::Relaying,
            send: Some(Frame::Connected(local)),
            bump: None,
            log: Some(LogEvent::Connected),
            command: Command::Relay,
        },
        (State::Connecting, Event::Denied) => fail(
            Some(Reply::ConnectionNotAllowed),
            Some(LogEvent::Denied),
        ),
        (State::Connecting, Event::ConnectFailed) => fail(
            Some(Reply::NetworkUnreachable),
            Some(LogEvent::IoError),
        ),
        (State::Connecting, Event::ConnectTimedOut) => fail(
            Some(Reply::TtlExpired),
            Some(LogEvent::ConnectTimeout),
        ),
        (State::Relaying, Event::Eof(direction)) => Transition {
            next: State::HalfClosed { finished: direction, clean: true },
            send: None,
            bump: None,
            log: None,
            command: Command::HalfClose(direction),
        },
        (State::Relaying, Event::RelayError(direction)) => Transition {
            next: State::HalfClosed { finished: direction, clean: false },
            send: None,
            bump: None,
            log: Some(LogEvent::IoError),
            command: Command::HalfClose(direction),
        },
        (State::HalfClosed { finished, clean }, Event::Eof(direction)) => if direction
            == finished.opposite() && clean {
            Transition {
                next: State::Done(Outcome::Success),
                send: None,
                bump: Some(Counter::SessionSuccess),
                log: Some(LogEvent::SessionOk),
                command: Command::Close,
            }
        } else {
            fail(None, None)
        },
        (State::HalfClosed { finished, clean }, Event::RelayError(direction)) => if direction
            == finished.opposite() {
            fail(None, Some(LogEvent::IoError))
        } else {
            fail(None, None)
        },
        _ => fail(None, None),
    }
}

impl Direction {
    /// The other direction.
    pub fn other(&self) -> (direction: Direction)
        ensures
            direction == self.opposite(),
    {
        match self {
            Direction::Outbound => Direction::Inbound,
            Direction::Inbound => Direction::Outbound,
        }
    }
}

/// Ends the session in failure.
fn failed(reply: Option<Reply>, log: Option<LogEvent>) -> (t: Transition)
    ensures
        t == fail(reply, log),
{
    Transition {
        next: State::Done(Outcome::Failure),
        send: match reply {
            Some(reply) => Some(Frame::Failure(reply)),
            None => None,
        },
        bump: None,
        log,
        command: Command::Close,
    }
}

/// Answers `event` in `state`.
pub fn step(state: State, event: Event) -> (t: Transition)
    ensures
        t == transition(state, event),
{
    if let State::Done(outcome) = state {
        return Transition {
            next: State::Done(outcome),
            send: None,
            bump: None,
            log: None,
            command: Command::Ignore,
        };
    }
    match event {
        Event::SessionTimedOut => Transition {
            next: State::Done(Outcome::Timeout),
            send: None,
            bump: Some(Counter::SessionTimeout),
            log: Some(LogEvent::SessionTimeout),
            command: Command::Close,
        },
        Event::IoError => failed(None, Some(LogEvent::IoError)),
        Event::Greeting(verdict) => match (state, verdict) {
            (State::AwaitGreeting, Greeting::Accepted) => Transition {
                next: State::AwaitRequest,
                send: Some(Frame::MethodSelected),
                bump: Some(Counter::HandshakeSuccess),
                log: Some(LogEvent::HandshakeOk),
                command: Command::ReadRequest,
            },
            (State::AwaitGreeting, Greeting::Refused) => Transition {
                next: State::Done(Outcome::Failure),
                send: Some(Frame::NoAcceptableMethod),
                bump: Some(Counter::HandshakeFailed),
                log: Some(LogEvent::HandshakeFailed),
                command: Command::Close,
            },
            _ => failed(None, None),
        },
        Event::Request(verdict) => match (state, verdict) {
            (State::AwaitRequest, RequestVerdict::Connect(request)) => Transition {
                next: State::Connecting,
                send: None,
                bump: None,
                log: Some(LogEvent::RequestParsed),
                command: Command::Connect(request),
            },
            (State::AwaitRequest, RequestVerdict::Rejected(reply)) => failed(Some(reply), None),
            _ => failed(None, None),
        },
        Event::Connected(local) => match state {
            State::Connecting => Transition {
                next: State::Relaying,
                send: Some(Frame::Connected(local)),
                bump: None,
                log: Some(LogEvent::Connected),
                command: Command::Relay,
            },
            _ => failed(None, None),
        },
        Event::Denied => match state {
            State::Connecting => failed(
                Some(Reply::ConnectionNotAllowed),
                Some(LogEvent::Denied),
            ),
            _ => failed(None, None),
        },
        Event::ConnectFailed => match state {
            State::Connecting => failed(
                Some(Reply::NetworkUnreachable),
                Some(LogEvent::IoError),
            ),
            _ => failed(None, None),
        },
        Event::ConnectTimedOut => match state {
            State::Connecting => failed(
                Some(Reply::TtlExpired),
                Some(LogEvent::ConnectTimeout),
            ),
            _ => failed(None, None),
        },
        Event::Eof(direction) => match state {
            State::Relaying => Transition {
                next: State::HalfClosed { finished: direction, clean: true },
                send: None,
                bump: None,
                log: None,
                command: Command::HalfClose(direction),
            },
            State::HalfClosed { finished, clean } => {
                if direction == finished.other() && clean {
                    Transition {
                        next: State::Done(Outcome::Success),
                        send: None,
                        bump: Some(Counter::SessionSuccess),
                        log: Some(LogEvent::SessionOk),
                        command: Command::Close,
                    }
                } else {
                    failed(None, None)
                }
            },
            _ => failed(None, None),
        },
        Event::RelayError(direction) => match state {
            State::Relaying => Transition {
                next: State::HalfClosed { finished: direction, clean: false },
                send: None,
                bump: None,
                log: Some(LogEvent::IoError),
                command: Command::HalfClose(direction),
            },
            State::HalfClosed { finished, clean: _ } => {
                if direction == finished.other() {
                    failed(None, Some(LogEvent::IoError))
                } else {
                    failed(None, None)
                }
            },
            _ => failed(None, None),
        },
    }
}

/// How often `counter` is bumped while a session in `state` answers
/// `events` one after the other.
pub open spec fn bumps(state: State, events: Seq<Event>, counter: Counter) -> nat
    decreases events.len(),
{
    if events.len() == 0 {
        0
    } else {
        let t = transition(state, events[0]);
        let here: nat = if t.bump == Some(counter) {
            1
        } else {
            0
        };
        here + bumps(t.next, events.drop_first(), counter)
    }
}

/// A finished session ignores whatever is reported to it: it stays as it
/// ended, sends nothing and bumps no counter.
pub proof fn lemma_done_is_final(outcome: Outcome, event: Event)
    ensures
        transition(State::Done(outcome), event) == (Transition {
            next: State::Done(outcome),
            send: None,
            bump: None,
            log: None,
            command: Command::Ignore,
        }),
{
}

/// The counters of a session's end are bumped only by the transition that
/// ends the session, and the success counter only at the regular end of a
/// relay.
pub proof fn lemma_session_counters_mark_the_end(state: State, event: Event)
    ensures
        transition(state, event).bump == Some(Counter::SessionSuccess) ==> transition(
            state,
            event,
        ).next == State::Done(Outcome::Success) && state is HalfClosed,
        transition(state, event).bump == Some(Counter::SessionTimeout) ==> transition(
            state,
            event,
        ).next == State::Done(Outcome::Timeout),
        transition(state, event).next == State::Done(Outcome::Success) && !(state is Done)
            ==> transition(state, event).bump == Some(Counter::SessionSuccess),
        transition(state, event).next == State::Done(Outcome::Timeout) && !(state is Done)
            ==> transition(state, event).bump == Some(Counter::SessionTimeout),
{
}

/// A counter is bumped exactly where the event of the same name is logged.
pub proof fn lemma_counters_follow_the_log(state: State, event: Event)
    ensures
        transition(state, event).bump == Some(Counter::HandshakeSuccess) <==> transition(
            state,
            event,
        ).log == Some(LogEvent::HandshakeOk),
        transition(state, event).bump == Some(Counter::HandshakeFailed) <==> transition(
            state,
            event,
        ).log == Some(LogEvent::HandshakeFailed),
        transition(state, event).bump == Some(Counter::SessionSuccess) <==> transition(
            state,
            event,
        ).log == Some(LogEvent::SessionOk),
        transition(state, event).bump == Some(Counter::SessionTimeout) <==> transition(
            state,
            event,
        ).log == Some(LogEvent::SessionTimeout),
{
}

/// A finished session bumps nothing, whatever is reported to it.
proof fn lemma_no_bumps_once_done(outcome: Outcome, events: Seq<Event>, counter: Counter)
    ensures
        bumps(State::Done(outcome), events, counter) == 0,
    decreases events.len(),
{
    if events.len() > 0 {
        lemma_no_bumps_once_done(outcome, events.drop_first(), counter);
    }
}

/// The handshake counters are bumped by the answer to the greeting and by
/// nothing that comes after it.
proof fn lemma_no_handshake_bumps_after_greeting(
    state: State,
    events: Seq<Event>,
    counter: Counter,
)
    requires
        state != State::AwaitGreeting,
        counter == Counter::HandshakeSuccess || counter == Counter::HandshakeFailed,
    ensures
        bumps(state, events, counter) == 0,
    decreases events.len(),
{
    if events.len() > 0 {
        let t = transition(state, events[0]);
        lemma_no_handshake_bumps_after_greeting(t.next, events.drop_first(), counter);
    }
}

/// Whatever is reported to a session, and in whatever order, each counter is
/// bumped at most once.
pub proof fn lemma_each_counter_bumped_at_most_once(
    state: State,
    events: Seq<Event>,
    counter: Counter,
)
    ensures
        bumps(state, events, counter) <= 1,
    decreases events.len(),
{
    if events.len() > 0 {
        let t = transition(state, events[0]);
        let rest = events.drop_first();
        lemma_each_counter_bumped_at_most_once(t.next, rest, counter);
        if t.bump == Some(counter) {
            match counter {
                Counter::SessionSuccess | Counter::SessionTimeout => {
                    lemma_no_bumps_once_done(t.next->Done_0, rest, counter);
                },
                Counter::HandshakeSuccess | Counter::HandshakeFailed => {
                    lemma_no_handshake_bumps_after_greeting(t.next, rest, counter);
                },
            }
        }
    }
}

/// Whatever is reported to a session, it is counted as succeeded or as timed
/// out at most once, and never as both.
pub proof fn lemma_session_end_counted_once(state: State, events: Seq<Event>)
    ensures
        bumps(state, events, Counter::SessionSuccess) + bumps(
            state,
            events,
            Counter::SessionTimeout,
        ) <= 1,
    decreases events.len(),
{
    if events.len() > 0 {
        let t = transition(state, events[0]);
        let rest = events.drop_first();
        lemma_session_end_counted_once(t.next, rest);
        if t.bump == Some(Counter::SessionSuccess) || t.bump == Some(Counter::SessionTimeout) {
            lemma_no_bumps_once_done(t.next->Done_0, rest, Counter::SessionSuccess);
            lemma_no_bumps_once_done(t.next->Done_0, rest, Counter::SessionTimeout);
        }
    }
}

/// What a new session answers to a greeting whose verdict is reached in
/// `buf`.
pub open spec fn greeting_answer(buf: Seq<u8>) -> Transition {
    transition(State::AwaitGreeting, Event::Greeting(greeting_outcome(buf)->Ready_0))
}

/// A new session answers a greeting that counts between one and
/// `MAX_METHODS` methods, "no authentication" among them, with the two bytes
/// `05 00`, and goes on to await the request.
pub proof fn lemma_no_auth_greeting_is_answered(methods: Seq<u8>)
    requires
        1 <= methods.len() <= MAX_METHODS,
        methods.contains(METHOD_NO_AUTH),
    ensures
        greeting_outcome(greeting_frame(methods)) is Ready,
        greeting_answer(greeting_frame(methods)).send matches Some(frame) && frame.bytes()
            == seq![0x05u8, 0x00u8],
        greeting_answer(greeting_frame(methods)).next == State::AwaitRequest,
        greeting_answer(greeting_frame(methods)).command == Command::ReadRequest,
{
    lemma_greeting_offering_no_auth(methods);
}

/// A new session answers a greeting that counts between one and
/// `MAX_METHODS` methods, none of them "no authentication", with the two
/// bytes `05 FF`, and closes the connection.
pub proof fn lemma_greeting_without_no_auth_is_refused(methods: Seq<u8>)
    requires
        1 <= methods.len() <= MAX_METHODS,
        !methods.contains(METHOD_NO_AUTH),
    ensures
        greeting_outcome(greeting_frame(methods)) is Ready,
        greeting_answer(greeting_frame(methods)).send matches Some(frame) && frame.bytes()
            == seq![0x05u8, 0xffu8],
        greeting_answer(greeting_frame(methods)).next == State::Done(Outcome::Failure),
        greeting_answer(greeting_frame(methods)).command == Command::Close,
{
    lemma_greeting_lacking_no_auth(methods);
}

/// Whenever a session sends a failure reply, it ends as failed and the
/// connection is closed.
pub proof fn lemma_failure_reply_closes(state: State, event: Event, reply: Reply)
    requires
        transition(state, event).send == Some(Frame::Failure(reply)),
    ensures
        transition(state, event).next == State::Done(Outcome::Failure),
        transition(state, event).command == Command::Close,
{
}

} // verus!
