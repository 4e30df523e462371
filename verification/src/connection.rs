//! The per-connection state machine. A connection moves through
//! `Handshaking -> Running -> Terminating -> Closed`; exactly one status
//! byte is written, when the handshake phase is left, and response body
//! bytes are written only while running, in the order the guest emitted
//! them. The socket and task plumbing lives with the caller, which feeds
//! every observed occurrence to `Connection::step` and performs the action
//! the step returns.

use vstd::prelude::*;
use crate::handshake::{HANDSHAKE_MALFORMED, HANDSHAKE_NOT_FOUND, HANDSHAKE_OK};

verus! {

/// Where a connection stands. `Running` is entered only after the OK byte
/// was written; `Terminating` is the wind-down while the sibling task is
/// still live.
#[derive(Clone, Copy, Debug, PartialEq, Eq, Structural)]
pub enum ConnPhase {
    Handshaking,
    Running,
    Terminating,
    Closed,
}

/// An occurrence a connection reacts to: the handshake's outcome, a guest
/// message drained from the channel, or one of the ways a task winds down.
#[derive(Debug)]
pub enum ConnEvent {
    /// The header was short or malformed, or its version unsupported.
    HeaderMalformed,
    /// The named function could not be fetched.
    FetchFailed,
    /// The artifact is in hand.
    FetchSucceeded,
    /// The guest posted bytes for the response body.
    GuestSend { data: Vec<u8> },
    /// The guest posted a log line.
    GuestLog { text: String },
    /// The guest posted the abort signal.
    GuestAbort,
    /// The reader task stopped: end of stream, a read error, or a guest
    /// runtime error.
    ReaderFinished,
    /// A response body write failed.
    WriteFailed,
    /// The message channel closed with the guest side gone.
    ChannelClosed,
    /// The other per-connection task exited.
    SiblingFinished,
}

/// What a step asks the caller to do before the next event is taken.
#[derive(Debug)]
pub enum ConnAction {
    /// Write this one status byte to the socket.
    WriteStatus { status: u8 },
    /// Write these bytes to the socket as response body.
    WriteBody { data: Vec<u8> },
    /// Hand this log line to the logs sink (fire and forget).
    SubmitLog { text: String },
    /// Shut the socket's write half down.
    ShutdownWrite,
}

/// The transition relation: the next phase and the action (at most one) an
/// occurrence provokes in a phase. Occurrences that make no sense in a
/// phase are ignored.
pub open spec fn conn_next(p: ConnPhase, e: ConnEvent) -> (ConnPhase, Option<ConnAction>) {
    match p {
        ConnPhase::Handshaking => match e {
            ConnEvent::HeaderMalformed => (
                ConnPhase::Closed,
                Some(ConnAction::WriteStatus { status: HANDSHAKE_MALFORMED }),
            ),
            ConnEvent::FetchFailed => (
                ConnPhase::Closed,
                Some(ConnAction::WriteStatus { status: HANDSHAKE_NOT_FOUND }),
            ),
            ConnEvent::FetchSucceeded => (
                ConnPhase::Running,
                Some(ConnAction::WriteStatus { status: HANDSHAKE_OK }),
            ),
            _ => (ConnPhase::Handshaking, None),
        },
        ConnPhase::Running => match e {
            ConnEvent::GuestSend { data } => (
                ConnPhase::Running,
                Some(ConnAction::WriteBody { data }),
            ),
            ConnEvent::GuestLog { text } => (
                ConnPhase::Running,
                Some(ConnAction::SubmitLog { text }),
            ),
            ConnEvent::GuestAbort => (ConnPhase::Terminating, Some(ConnAction::ShutdownWrite)),
            ConnEvent::ReaderFinished => (ConnPhase::Terminating, None),
            ConnEvent::WriteFailed => (ConnPhase::Terminating, None),
            ConnEvent::ChannelClosed => (ConnPhase::Terminating, None),
            ConnEvent::SiblingFinished => (ConnPhase::Terminating, None),
            _ => (ConnPhase::Running, None),
        },
        ConnPhase::Terminating => match e {
            ConnEvent::SiblingFinished => (ConnPhase::Closed, None),
            _ => (ConnPhase::Terminating, None),
        },
        ConnPhase::Closed => (ConnPhase::Closed, None),
    }
}

/// One connection's phase, stepped by the caller's event loop.
#[derive(Debug)]
pub struct Connection {
    pub phase: ConnPhase,
}

impl Connection {
    /// A freshly accepted connection: the handshake is still to be read.
    pub fn accepted() -> (r: Self)
        ensures
            r.phase == ConnPhase::Handshaking,
    {
        Connection { phase: ConnPhase::Handshaking }
    }

    /// Feeds one occurrence to the connection and returns the action it
    /// provokes, exactly as the transition relation has it.
    pub fn step(&mut self, event: ConnEvent) -> (r: Option<ConnAction>)
        ensures
            final(self).phase == conn_next(old(self).phase, event).0,
            r == conn_next(old(self).phase, event).1,
    {
        match self.phase {
            ConnPhase::Handshaking => match event {
                ConnEvent::HeaderMalformed => {
                    self.phase = ConnPhase::Closed;
                    Some(ConnAction::WriteStatus { status: HANDSHAKE_MALFORMED })
                },
                ConnEvent::FetchFailed => {
                    self.phase = ConnPhase::Closed;
                    Some(ConnAction::WriteStatus { status: HANDSHAKE_NOT_FOUND })
                },
                ConnEvent::FetchSucceeded => {
                    self.phase = ConnPhase::Running;
                    Some(ConnAction::WriteStatus { status: HANDSHAKE_OK })
                },
                _ => None,
            },
            ConnPhase::Running => match event {
                ConnEvent::GuestSend { data } => Some(ConnAction::WriteBody { data }),
                ConnEvent::GuestLog { text } => Some(ConnAction::SubmitLog { text }),
                ConnEvent::GuestAbort => {
                    self.phase = ConnPhase::Terminating;
                    Some(ConnAction::ShutdownWrite)
                },
                ConnEvent::ReaderFinished => {
                    self.phase = ConnPhase::Terminating;
                    None
                },
                ConnEvent::WriteFailed => {
                    self.phase = ConnPhase::Terminating;
                    None
                },
                ConnEvent::ChannelClosed => {
                    self.phase = ConnPhase::Terminating;
                    None
                },
                ConnEvent::SiblingFinished => {
                    self.phase = ConnPhase::Terminating;
                    None
                },
                _ => None,
            },
            ConnPhase::Terminating => match event {
                ConnEvent::SiblingFinished => {
                    self.phase = ConnPhase::Closed;
                    None
                },
                _ => None,
            },
            ConnPhase::Closed => None,
        }
    }
}

/// The action sequence of an optional action.
pub open spec fn opt_seq(a: Option<ConnAction>) -> Seq<ConnAction> {
    match a {
        Some(x) => seq![x],
        None => Seq::empty(),
    }
}

/// A whole run: the phase a connection ends in and the actions it asks for,
/// in order, when the given occurrences arrive in order.
pub open spec fn conn_run(p: ConnPhase, events: Seq<ConnEvent>) -> (ConnPhase, Seq<ConnAction>)
    decreases events.len(),
{
    if events.len() == 0 {
        (p, Seq::empty())
    } else {
        let step = conn_next(p, events[0]);
        let rest = conn_run(step.0, events.drop_first());
        (rest.0, opt_seq(step.1) + rest.1)
    }
}

pub open spec fn is_status(a: ConnAction) -> bool {
    a is WriteStatus
}

/// A status byte, where one is written, is one of the three the protocol
/// knows.
pub open spec fn status_value_ok(a: ConnAction) -> bool {
    match a {
        ConnAction::WriteStatus { status } => status == HANDSHAKE_OK || status
            == HANDSHAKE_MALFORMED || status == HANDSHAKE_NOT_FOUND,
        _ => true,
    }
}

pub open spec fn is_body(a: ConnAction) -> bool {
    a is WriteBody
}

/// How many status bytes a sequence of actions writes.
pub open spec fn status_count(s: Seq<ConnAction>) -> nat
    decreases s.len(),
{
    if s.len() == 0 {
        0
    } else {
        (if is_status(s[0]) {
            1nat
        } else {
            0nat
        }) + status_count(s.drop_first())
    }
}

/// The response body payloads a sequence of actions writes, in order.
pub open spec fn bodies(s: Seq<ConnAction>) -> Seq<Seq<u8>>
    decreases s.len(),
{
    if s.len() == 0 {
        Seq::empty()
    } else {
        (match s[0] {
            ConnAction::WriteBody { data } => seq![data@],
            _ => Seq::empty(),
        }) + bodies(s.drop_first())
    }
}

/// The payloads of the guest sends a run accepts (those arriving while the
/// connection is running), in arrival order.
pub open spec fn accepted_sends(p: ConnPhase, events: Seq<ConnEvent>) -> Seq<Seq<u8>>
    decreases events.len(),
{
    if events.len() == 0 {
        Seq::empty()
    } else {
        (match (p, events[0]) {
            (ConnPhase::Running, ConnEvent::GuestSend { data }) => seq![data@],
            _ => Seq::empty(),
        }) + accepted_sends(conn_next(p, events[0]).0, events.drop_first())
    }
}

proof fn lemma_status_count_concat(s: Seq<ConnAction>, t: Seq<ConnAction>)
    ensures
        status_count(s + t) == status_count(s) + status_count(t),
    decreases s.len(),
{
    if s.len() == 0 {
        assert(s + t =~= t);
    } else {
        assert((s + t).drop_first() =~= s.drop_first() + t);
        lemma_status_count_concat(s.drop_first(), t);
    }
}

proof fn lemma_bodies_concat(s: Seq<ConnAction>, t: Seq<ConnAction>)
    ensures
        bodies(s + t) == bodies(s) + bodies(t),
    decreases s.len(),
{
    if s.len() == 0 {
        assert(s + t =~= t);
        assert(bodies(s) + bodies(t) =~= bodies(t));
    } else {
        assert((s + t).drop_first() =~= s.drop_first() + t);
        lemma_bodies_concat(s.drop_first(), t);
        assert(bodies(s + t) =~= bodies(s) + bodies(t));
    }
}

proof fn lemma_status_count_opt(a: Option<ConnAction>)
    ensures
        status_count(opt_seq(a)) == (match a {
            Some(x) => if is_status(x) {
                1nat
            } else {
                0nat
            },
            None => 0nat,
        }),
{
    assert(status_count(Seq::<ConnAction>::empty()) == 0);
    match a {
        Some(x) => {
            assert(opt_seq(a) == seq![x]);
            assert(seq![x].drop_first() =~= Seq::<ConnAction>::empty());
            assert(seq![x][0] == x);
            assert(status_count(seq![x]) == (if is_status(x) {
                1nat
            } else {
                0nat
            }) + status_count(seq![x].drop_first()));
        },
        None => {
            assert(opt_seq(a) == Seq::<ConnAction>::empty());
        },
    }
}

proof fn lemma_bodies_opt(a: Option<ConnAction>)
    ensures
        bodies(opt_seq(a)) == (match a {
            Some(x) => match x {
                ConnAction::WriteBody { data } => seq![data@],
                _ => Seq::<Seq<u8>>::empty(),
            },
            None => Seq::<Seq<u8>>::empty(),
        }),
{
    assert(bodies(Seq::<ConnAction>::empty()) == Seq::<Seq<u8>>::empty());
    match a {
        Some(x) => {
            assert(opt_seq(a) == seq![x]);
            assert(seq![x].drop_first() =~= Seq::<ConnAction>::empty());
            assert(seq![x][0] == x);
            assert(bodies(seq![x]) == (match x {
                ConnAction::WriteBody { data } => seq![data@],
                _ => Seq::<Seq<u8>>::empty(),
            }) + bodies(seq![x].drop_first()));
            match x {
                ConnAction::WriteBody { data } => {
                    assert(bodies(seq![x]) =~= seq![data@]);
                },
                _ => {
                    assert(bodies(seq![x]) =~= Seq::<Seq<u8>>::empty());
                },
            }
        },
        None => {
            assert(opt_seq(a) == Seq::<ConnAction>::empty());
        },
    }
}

/// The status discipline of every run: a run that starts past the
/// handshake writes no status byte; a run from the handshake writes exactly
/// one status byte when (and only when) it leaves the handshake, and writes
/// it before any response body byte; and the handshake phase is never
/// re-entered.
proof fn lemma_conn_run_status_discipline(p: ConnPhase, events: Seq<ConnEvent>)
    ensures
        ({
            let r = conn_run(p, events);
            &&& (!(p is Handshaking) ==> status_count(r.1) == 0)
            &&& (p is Handshaking ==> status_count(r.1) == (if r.0 is Handshaking {
                0nat
            } else {
                1nat
            }))
            &&& (r.0 is Handshaking ==> p is Handshaking)
            &&& (p is Handshaking ==> forall|i: int|
                0 <= i < r.1.len() && is_body(#[trigger] r.1[i]) ==> exists|j: int|
                    0 <= j < i && is_status(r.1[j]))
            &&& forall|i: int| 0 <= i < r.1.len() ==> status_value_ok(#[trigger] r.1[i])
        }),
    decreases events.len(),
{
    if events.len() > 0 {
        let step = conn_next(p, events[0]);
        let rest = conn_run(step.0, events.drop_first());
        let acts = opt_seq(step.1) + rest.1;
        lemma_conn_run_status_discipline(step.0, events.drop_first());
        lemma_status_count_concat(opt_seq(step.1), rest.1);
        lemma_status_count_opt(step.1);
        assert forall|i: int| 0 <= i < acts.len() implies status_value_ok(#[trigger] acts[i]) by {
            if i < opt_seq(step.1).len() {
                assert(acts[i] == opt_seq(step.1)[i]);
            } else {
                assert(acts[i] == rest.1[i - opt_seq(step.1).len()]);
            }
        }
        if p is Handshaking {
            if step.0 is Handshaking {
                assert(acts =~= rest.1);
            } else {
                assert(step.1 matches Some(x) && is_status(x));
                assert(is_status(acts[0]));
                assert(status_count(rest.1) == 0);
                assert forall|i: int|
                    0 <= i < acts.len() && is_body(#[trigger] acts[i]) implies exists|j: int|
                    0 <= j < i && is_status(acts[j]) by {
                    assert(!is_body(acts[0]));
                    assert(0 <= 0 < i && is_status(acts[0]));
                }
            }
        } else {
            assert(!(step.0 is Handshaking));
            assert(status_count(opt_seq(step.1)) == 0);
        }
    }
}

/// Law: on every connection, exactly one status byte is written before the
/// connection leaves the handshake phase (none while it is still there); it
/// is one of the three the protocol knows; and every response body byte is
/// written after it.
pub proof fn lemma_exactly_one_status(events: Seq<ConnEvent>)
    ensures
        ({
            let r = conn_run(ConnPhase::Handshaking, events);
            &&& status_count(r.1) == (if r.0 is Handshaking {
                0nat
            } else {
                1nat
            })
            &&& forall|i: int|
                0 <= i < r.1.len() && is_body(#[trigger] r.1[i]) ==> exists|j: int|
                    0 <= j < i && is_status(r.1[j])
            &&& forall|i: int| 0 <= i < r.1.len() ==> status_value_ok(#[trigger] r.1[i])
        }),
{
    lemma_conn_run_status_discipline(ConnPhase::Handshaking, events);
}

/// Law: the response body payloads a run writes are exactly the payloads of
/// the guest sends it accepted, in their emission order.
pub proof fn lemma_bodies_in_emission_order(p: ConnPhase, events: Seq<ConnEvent>)
    ensures
        bodies(conn_run(p, events).1) == accepted_sends(p, events),
    decreases events.len(),
{
    if events.len() == 0 {
    } else {
        let step = conn_next(p, events[0]);
        let rest = conn_run(step.0, events.drop_first());
        lemma_bodies_in_emission_order(step.0, events.drop_first());
        lemma_bodies_concat(opt_seq(step.1), rest.1);
        lemma_bodies_opt(step.1);
        assert(bodies(conn_run(p, events).1) =~= accepted_sends(p, events));
    }
}

/// Law: an abort from the guest shuts the write half down at once: the very
/// step that takes the abort asks for the shutdown, before any further
/// event is consumed.
pub proof fn lemma_abort_shuts_down_write()
    ensures
        conn_next(ConnPhase::Running, ConnEvent::GuestAbort) == (
            ConnPhase::Terminating,
            Some(ConnAction::ShutdownWrite),
        ),
{
}

/// What one socket read came to. A read of zero bytes is the stream's end.
#[derive(Debug)]
pub enum ReadEvent {
    /// The read returned these bytes (none at end of stream).
    Received { buf: Vec<u8> },
    /// The read failed.
    Failed,
}

/// What the reader task does with one read: feed the bytes to the guest, or
/// stop without touching it.
#[derive(Debug)]
pub enum ReaderDirective {
    Stop,
    FeedGuest { chunk: Vec<u8> },
}

/// Decides one iteration of the reader task. The guest is invoked only for
/// a non-empty read: the stream's end and read errors stop the reader
/// without a guest call.
pub fn reader_directive(event: ReadEvent) -> (r: ReaderDirective)
    ensures
        match event {
            ReadEvent::Received { buf } => {
                if buf@.len() == 0 {
                    r is Stop
                } else {
                    match r {
                        ReaderDirective::FeedGuest { chunk } => chunk@ == buf@,
                        _ => false,
                    }
                }
            },
            ReadEvent::Failed => r is Stop,
        },
{
    match event {
        ReadEvent::Received { buf } => {
            if buf.len() == 0 {
                ReaderDirective::Stop
            } else {
                ReaderDirective::FeedGuest { chunk: buf }
            }
        },
        ReadEvent::Failed => ReaderDirective::Stop,
    }
}

/// A value the guest returned, as far as the reader reads it: a 32-bit
/// integer, a 64-bit integer, or anything else.
#[derive(Clone, Copy, Debug, PartialEq, Eq, Structural)]
pub enum GuestValue {
    I32 { value: i32 },
    I64 { value: i64 },
    Other,
}

/// Reads the guest allocator's return values as a linear-memory offset: the
/// first value when it is a 32-bit integer, and nothing otherwise. A `None`
/// terminates the connection at once: the reader cannot place bytes without
/// an offset.
pub fn alloc_pointer(values: &Vec<GuestValue>) -> (r: Option<i32>)
    ensures
        match r {
            Some(p) => values@.len() >= 1 && values@[0] == (GuestValue::I32 { value: p }),
            None => values@.len() == 0 || !(values@[0] is I32),
        },
{
    if values.len() == 0 {
        return None;
    }
    let v: &GuestValue = &values[0];
    match v {
        GuestValue::I32 { value } => Some(*value),
        _ => None,
    }
}

} // verus!
