//! The relay's own websocket protocol: a client says hello back with a
//! subscription, heartbeats to stay connected, and receives the state of
//! the user it subscribed to, then every update of it.

use vstd::prelude::*;
use crate::api::types::ResponseData;

verus! {

/// Opcodes of the relay's websocket protocol.
#[derive(Debug, Clone, Copy, PartialEq, Eq, Structural)]
pub enum SocketOpcode {
    Event,
    Hello,
    Initialize,
    Heartbeat,
    Unsubscribe,
}

pub open spec fn socket_opcode_number(op: SocketOpcode) -> int {
    match op {
        SocketOpcode::Event => 0,
        SocketOpcode::Hello => 1,
        SocketOpcode::Initialize => 2,
        SocketOpcode::Heartbeat => 3,
        SocketOpcode::Unsubscribe => 4,
    }
}

impl SocketOpcode {
    pub fn code(&self) -> (r: u8)
        ensures
            r == socket_opcode_number(*self),
    {
        match self {
            SocketOpcode::Event => 0,
            SocketOpcode::Hello => 1,
            SocketOpcode::Initialize => 2,
            SocketOpcode::Heartbeat => 3,
            SocketOpcode::Unsubscribe => 4,
        }
    }

    pub fn from_code(code: u64) -> (r: Option<SocketOpcode>)
        ensures
            match r {
                Some(op) => socket_opcode_number(op) == code,
                None => forall|op: SocketOpcode| socket_opcode_number(op) != code,
            },
    {
        if code == 0 {
            Some(SocketOpcode::Event)
        } else if code == 1 {
            Some(SocketOpcode::Hello)
        } else if code == 2 {
            Some(SocketOpcode::Initialize)
        } else if code == 3 {
            Some(SocketOpcode::Heartbeat)
        } else if code == 4 {
            Some(SocketOpcode::Unsubscribe)
        } else {
            assert forall|op: SocketOpcode| socket_opcode_number(op) != code by {
                match op {
                    SocketOpcode::Event => {},
                    SocketOpcode::Hello => {},
                    SocketOpcode::Initialize => {},
                    SocketOpcode::Heartbeat => {},
                    SocketOpcode::Unsubscribe => {},
                }
            }
            None
        }
    }
}

/// The heartbeat interval that the hello asks clients for, in milliseconds.
pub const HEARTBEAT_INTERVAL_MS: u64 = 10000;

/// How often the server looks for a missed heartbeat, in milliseconds.
pub const HEARTBEAT_TICK_MS: u64 = 10000;

/// A client that sent no heartbeat for longer than this (in nanoseconds)
/// is disconnected.
pub const HEARTBEAT_TIMEOUT_NS: u64 = 30_000_000_000;

/// How long one write to a client may take, in milliseconds.
pub const WRITE_TIMEOUT_MS: u64 = 10000;

/// The sequence number of the first state sent after a subscription.
pub const INITIAL_SEQUENCE: i64 = 1;

/// The event that carries the state when a client subscribes.
pub const INIT_STATE: &'static str = "INIT_STATE";

/// The event that carries each later change of the state.
pub const PRESENCE_UPDATE: &'static str = "PRESENCE_UPDATE";

/// The payload of the server's hello.
#[derive(Debug, Clone, Copy)]
pub struct HelloData {
    pub heartbeat_interval: u64,
}

/// A message from the server to a client. A zero `seq` is left out on the
/// wire, and so is an absent event name `t`.
#[derive(Debug, Clone)]
pub struct OutgoingMessage<T> {
    pub op: SocketOpcode,
    pub t: Option<&'static str>,
    pub seq: i64,
    pub d: T,
}

/// Whether the sequence number is left out on the wire.
pub fn is_zero(seq: &i64) -> (r: bool)
    ensures
        r == (*seq == 0),
{
    *seq == 0
}

/// The first message to every client.
pub fn hello_message() -> (r: OutgoingMessage<HelloData>)
    ensures
        r.op == SocketOpcode::Hello,
        r.t is None,
        r.seq == 0,
        r.d.heartbeat_interval == HEARTBEAT_INTERVAL_MS,
{
    OutgoingMessage {
        op: SocketOpcode::Hello,
        t: None,
        seq: 0,
        d: HelloData { heartbeat_interval: HEARTBEAT_INTERVAL_MS },
    }
}

/// The state sent to a client when it subscribes.
pub fn init_state_message(d: ResponseData) -> (r: OutgoingMessage<ResponseData>)
    ensures
        r.op == SocketOpcode::Event,
        r.t matches Some(t) && t@ == INIT_STATE@,
        r.seq == INITIAL_SEQUENCE,
        r.d == d,
{
    OutgoingMessage { op: SocketOpcode::Event, t: Some(INIT_STATE), seq: INITIAL_SEQUENCE, d }
}

/// A later change of the state, with its sequence number.
pub fn presence_update_message(seq: i64, d: ResponseData) -> (r: OutgoingMessage<ResponseData>)
    ensures
        r.op == SocketOpcode::Event,
        r.t matches Some(t) && t@ == PRESENCE_UPDATE@,
        r.seq == seq,
        r.d == d,
{
    OutgoingMessage { op: SocketOpcode::Event, t: Some(PRESENCE_UPDATE), seq, d }
}

/// What the server's reader saw. Times are in nanoseconds on a clock that
/// does not go back.
#[derive(Debug, Clone)]
pub enum SocketEvent {
    /// The heartbeat check came due.
    Tick { now_ns: u64 },
    /// A text frame that decoded to a message with opcode number `op`;
    /// `subscribe_to_id` is the id that its payload names, when the payload
    /// is an initialize payload.
    Text { now_ns: u64, op: u64, subscribe_to_id: Option<String> },
    /// A text frame that is not a message.
    Undecodable,
    /// A frame that is not text (binary, ping, pong).
    OtherFrame,
    /// The client closed the connection, or the stream ended.
    Closed,
    /// Reading failed.
    Failed,
}

#[derive(Debug, Clone, Copy, PartialEq, Eq, Structural)]
pub enum SessionPhase {
    /// Hello sent; waiting for the client to say whom it follows.
    AwaitingInitialize,
    /// The client follows a user.
    Subscribed,
    /// The connection is over.
    Closed,
}

/// What the server does after an event.
#[derive(Debug, Clone, PartialEq, Eq)]
pub enum SessionAction {
    /// Read on.
    Continue,
    /// Send the state of this user and forward its updates; read on.
    Subscribe(String),
    /// End the connection.
    Close,
}

/// The server's state for one client connection.
#[derive(Debug, Clone, Copy)]
pub struct SocketSession {
    pub phase: SessionPhase,
    /// When the client last showed that it is alive.
    pub last_heartbeat_ns: u64,
}

/// Whether more than the timeout has passed since the last heartbeat.
pub open spec fn timed_out(last_ns: u64, now_ns: u64) -> bool {
    now_ns > last_ns && now_ns - last_ns > HEARTBEAT_TIMEOUT_NS
}

pub open spec fn is_op(op: u64, which: SocketOpcode) -> bool {
    op == socket_opcode_number(which)
}

/// The session after an event, and what the server does.
pub open spec fn session_next(s: SocketSession, e: SocketEvent) -> (SocketSession, SessionAction) {
    let closed = SocketSession { phase: SessionPhase::Closed, ..s };
    match s.phase {
        SessionPhase::Closed => (s, SessionAction::Close),
        SessionPhase::AwaitingInitialize => match e {
            SocketEvent::Tick { now_ns } => if timed_out(s.last_heartbeat_ns, now_ns) {
                (closed, SessionAction::Close)
            } else {
                (s, SessionAction::Continue)
            },
            SocketEvent::Text { now_ns, op, subscribe_to_id } => if is_op(
                op,
                SocketOpcode::Heartbeat,
            ) {
                (SocketSession { last_heartbeat_ns: now_ns, ..s }, SessionAction::Continue)
            } else if is_op(op, SocketOpcode::Initialize) {
                match subscribe_to_id {
                    Some(id) => (
                        SocketSession { phase: SessionPhase::Subscribed, ..s },
                        SessionAction::Subscribe(id),
                    ),
                    None => (closed, SessionAction::Close),
                }
            } else {
                (closed, SessionAction::Close)
            },
            SocketEvent::Undecodable => (closed, SessionAction::Close),
            SocketEvent::OtherFrame => (s, SessionAction::Continue),
            SocketEvent::Closed => (closed, SessionAction::Close),
            SocketEvent::Failed => (closed, SessionAction::Close),
        },
        SessionPhase::Subscribed => match e {
            SocketEvent::Tick { now_ns } => if timed_out(s.last_heartbeat_ns, now_ns) {
                (closed, SessionAction::Close)
            } else {
                (s, SessionAction::Continue)
            },
            SocketEvent::Text { now_ns, op, subscribe_to_id } => if is_op(
                op,
                SocketOpcode::Heartbeat,
            ) {
                (SocketSession { last_heartbeat_ns: now_ns, ..s }, SessionAction::Continue)
            } else if is_op(op, SocketOpcode::Unsubscribe) {
                (closed, SessionAction::Close)
            } else {
                (s, SessionAction::Continue)
            },
            SocketEvent::Undecodable => (s, SessionAction::Continue),
            SocketEvent::OtherFrame => (s, SessionAction::Continue),
            SocketEvent::Closed => (closed, SessionAction::Close),
            SocketEvent::Failed => (closed, SessionAction::Close),
        },
    }
}

impl SocketSession {
    /// A session whose hello was sent at `now_ns`.
    pub fn new(now_ns: u64) -> (r: Self)
        ensures
            r.phase == SessionPhase::AwaitingInitialize,
            r.last_heartbeat_ns == now_ns,
    {
        SocketSession { phase: SessionPhase::AwaitingInitialize, last_heartbeat_ns: now_ns }
    }

    /// Takes one event.
    pub fn step(&mut self, event: SocketEvent) -> (r: SessionAction)
        ensures
            (*final(self), r) == session_next(*old(self), event),
    {
        let closed = SocketSession { phase: SessionPhase::Closed, last_heartbeat_ns: self.last_heartbeat_ns };
        match self.phase {
            SessionPhase::Closed => SessionAction::Close,
            SessionPhase::AwaitingInitialize => match event {
                SocketEvent::Tick { now_ns } => {
                    if now_ns > self.last_heartbeat_ns && now_ns - self.last_heartbeat_ns
                        > HEARTBEAT_TIMEOUT_NS {
                        *self = closed;
                        SessionAction::Close
                    } else {
                        SessionAction::Continue
                    }
                },
                SocketEvent::Text { now_ns, op, subscribe_to_id } => {
                    let opcode = SocketOpcode::from_code(op);
                    if opcode == Some(SocketOpcode::Heartbeat) {
                        self.last_heartbeat_ns = now_ns;
                        SessionAction::Continue
                    } else if opcode == Some(SocketOpcode::Initialize) {
                        match subscribe_to_id {
                            Some(id) => {
                                self.phase = SessionPhase::Subscribed;
                                SessionAction::Subscribe(id)
                            },
                            None => {
                                *self = closed;
                                SessionAction::Close
                            },
                        }
                    } else {
                        *self = closed;
                        SessionAction::Close
                    }
                },
                SocketEvent::Undecodable => {
                    *self = closed;
                    SessionAction::Close
                },
                SocketEvent::OtherFrame => SessionAction::Continue,
                SocketEvent::Closed => {
                    *self = closed;
                    SessionAction::Close
                },
                SocketEvent::Failed => {
                    *self = closed;
                    SessionAction::Close
                },
            },
            SessionPhase::Subscribed => match event {
                SocketEvent::Tick { now_ns } => {
                    if now_ns > self.last_heartbeat_ns && now_ns - self.last_heartbeat_ns
                        > HEARTBEAT_TIMEOUT_NS {
                        *self = closed;
                        SessionAction::Close
                    } else {
                        SessionAction::Continue
                    }
                },
                SocketEvent::Text { now_ns, op, subscribe_to_id: _ } => {
                    let opcode = SocketOpcode::from_code(op);
                    if opcode == Some(SocketOpcode::Heartbeat) {
                        self.last_heartbeat_ns = now_ns;
                        SessionAction::Continue
                    } else if opcode == Some(SocketOpcode::Unsubscribe) {
                        *self = closed;
                        SessionAction::Close
                    } else {
                        SessionAction::Continue
                    }
                },
                SocketEvent::Undecodable => SessionAction::Continue,
                SocketEvent::OtherFrame => SessionAction::Continue,
                SocketEvent::Closed => {
                    *self = closed;
                    SessionAction::Close
                },
                SocketEvent::Failed => {
                    *self = closed;
                    SessionAction::Close
                },
            },
        }
    }
}

/// In every open phase, the client closing the connection or a failed
/// read ends the session: the phase becomes `Closed`, nothing else in the
/// session changes, and the server closes.
pub proof fn lemma_close_or_failure_ends_session(s: SocketSession)
    requires
        s.phase != SessionPhase::Closed,
    ensures
        session_next(s, SocketEvent::Closed) == (
            SocketSession { phase: SessionPhase::Closed, last_heartbeat_ns: s.last_heartbeat_ns },
            SessionAction::Close,
        ),
        session_next(s, SocketEvent::Failed) == (
            SocketSession { phase: SessionPhase::Closed, last_heartbeat_ns: s.last_heartbeat_ns },
            SessionAction::Close,
        ),
{
}

/// A closed session stays closed, and every event gets "close".
pub proof fn lemma_closed_is_final(s: SocketSession, e: SocketEvent)
    requires
        s.phase == SessionPhase::Closed,
    ensures
        session_next(s, e).0.phase == SessionPhase::Closed,
        session_next(s, e).1 == SessionAction::Close,
{
}

/// Once a session has left the handshake it never goes back to it.
pub proof fn lemma_no_return_to_handshake(s: SocketSession, e: SocketEvent)
    requires
        s.phase != SessionPhase::AwaitingInitialize,
    ensures
        session_next(s, e).0.phase != SessionPhase::AwaitingInitialize,
{
}

/// The server subscribes a client only in the handshake, only on an
/// initialize message, and only to the id that the message names.
pub proof fn lemma_subscribe_only_on_initialize(s: SocketSession, e: SocketEvent, id: String)
    requires
        session_next(s, e).1 == SessionAction::Subscribe(id),
    ensures
        s.phase == SessionPhase::AwaitingInitialize,
        e matches SocketEvent::Text { op, subscribe_to_id, .. } && is_op(
            op,
            SocketOpcode::Initialize,
        ) && subscribe_to_id == Some(id),
        session_next(s, e).0.phase == SessionPhase::Subscribed,
{
}

/// A client that heartbeats at `t` is not disconnected by a heartbeat
/// check at any time up to `t` plus the timeout.
pub proof fn lemma_heartbeat_keeps_alive(s: SocketSession, t: u64, id: Option<String>, u: u64)
    requires
        s.phase != SessionPhase::Closed,
        u <= t + HEARTBEAT_TIMEOUT_NS,
    ensures
        ({
            let s2 = session_next(
                s,
                SocketEvent::Text {
                    now_ns: t,
                    op: socket_opcode_number(SocketOpcode::Heartbeat) as u64,
                    subscribe_to_id: id,
                },
            ).0;
            &&& s2.phase == s.phase
            &&& session_next(s2, SocketEvent::Tick { now_ns: u }).1 == SessionAction::Continue
        }),
{
}

/// A client that stays silent for longer than the timeout is disconnected
/// at the next heartbeat check.
pub proof fn lemma_silence_disconnects(s: SocketSession, now_ns: u64)
    requires
        timed_out(s.last_heartbeat_ns, now_ns),
    ensures
        session_next(s, SocketEvent::Tick { now_ns }).1 == SessionAction::Close,
        session_next(s, SocketEvent::Tick { now_ns }).0.phase == SessionPhase::Closed,
{
}

/// The sequence numbers of a subscription's updates.
pub struct UpdateForwarder {
    sequence: i64,
}

impl UpdateForwarder {
    #[verifier::type_invariant]
    spec fn wf(self) -> bool {
        self.sequence >= INITIAL_SEQUENCE
    }

    /// The sequence number that was given out last.
    pub closed spec fn last_sequence(self) -> i64 {
        self.sequence
    }

    /// A forwarder after the initial state.
    pub fn new() -> (r: Self)
        ensures
            r.last_sequence() == INITIAL_SEQUENCE,
    {
        UpdateForwarder { sequence: INITIAL_SEQUENCE }
    }

    /// The sequence number of the next update: one more than the last.
    pub fn next_sequence(&mut self) -> (r: i64)
        requires
            old(self).last_sequence() < i64::MAX,
        ensures
            r == old(self).last_sequence() + 1,
            final(self).last_sequence() == r,
            r > INITIAL_SEQUENCE,
    {
        proof {
            use_type_invariant(&*self);
        }
        self.sequence = self.sequence + 1;
        self.sequence
    }

    /// The exec view of `last_sequence`.
    pub fn sequence(&self) -> (r: i64)
        ensures
            r == self.last_sequence(),
    {
        self.sequence
    }
}

} // verus!
