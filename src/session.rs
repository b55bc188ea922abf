use vstd::prelude::*;
use vstd::set_lib::{lemma_int_range, set_int_range};
use crate::wire::{
    chat_line, chat_prefix, chat_spec, disconnect_notice, disconnect_spec, ends_with_newline, welcome_line,
    welcome_spec, NEWLINE,
};

verus! {

/// What one iteration of a session's loop observed.
pub enum SessionEvent {
    /// The shutdown watch delivered this value.
    Shutdown(bool),
    /// A read from the client returned these bytes; none means the client closed.
    Read(Vec<u8>),
    /// A read from the client failed.
    ReadFailed,
    /// The hub delivered a message published by the session with this identifier.
    Delivered(u16),
    /// The subscription fell behind and the hub dropped messages for it.
    Lagged,
    /// Publishing a relayed line on the hub failed.
    PublishFailed,
}

/// What the loop is to do in answer to an event.
pub enum SessionAction {
    /// Nothing; wait for the next event.
    Wait,
    /// Publish this message on the hub under the session's identifier. A failure is
    /// reported back as `SessionEvent::PublishFailed`.
    Publish(Vec<u8>),
    /// Publish this notice on the hub, ignoring failure, then release the connection.
    Farewell(Vec<u8>),
    /// Write the delivered message to the client, ignoring failure.
    Forward,
    /// Release the connection.
    Close,
}

/// An event with its bytes as a sequence.
pub ghost enum EventView {
    Shutdown(bool),
    Read(Seq<u8>),
    ReadFailed,
    Delivered(u16),
    Lagged,
    PublishFailed,
}

/// An action with its bytes as a sequence.
pub ghost enum Reaction {
    Wait,
    Publish(Seq<u8>),
    Farewell(Seq<u8>),
    Forward,
    Close,
}

impl View for SessionEvent {
    type V = EventView;

    open spec fn view(&self) -> EventView {
        match self {
            SessionEvent::Shutdown(v) => EventView::Shutdown(*v),
            SessionEvent::Read(d) => EventView::Read(d@),
            SessionEvent::ReadFailed => EventView::ReadFailed,
            SessionEvent::Delivered(o) => EventView::Delivered(*o),
            SessionEvent::Lagged => EventView::Lagged,
            SessionEvent::PublishFailed => EventView::PublishFailed,
        }
    }
}

impl View for SessionAction {
    type V = Reaction;

    open spec fn view(&self) -> Reaction {
        match self {
            SessionAction::Wait => Reaction::Wait,
            SessionAction::Publish(m) => Reaction::Publish(m@),
            SessionAction::Farewell(m) => Reaction::Farewell(m@),
            SessionAction::Forward => Reaction::Forward,
            SessionAction::Close => Reaction::Close,
        }
    }
}

/// The abstract state of a session: its identifier and whether it is still active.
pub ghost struct SessionState {
    pub id: u16,
    pub open: bool,
}

/// How an active session answers one event, and the state it moves to.
/// A closed session stays closed and does nothing.
pub open spec fn step(s: SessionState, ev: EventView) -> (SessionState, Reaction) {
    let closed = SessionState { id: s.id, open: false };
    if !s.open {
        (s, Reaction::Wait)
    } else {
        match ev {
            EventView::Shutdown(v) => if v {
                (closed, Reaction::Close)
            } else {
                (s, Reaction::Wait)
            },
            EventView::Read(d) => if d.len() == 0 {
                (closed, Reaction::Farewell(disconnect_spec(s.id)))
            } else {
                (s, Reaction::Publish(chat_spec(s.id, d)))
            },
            EventView::ReadFailed => (s, Reaction::Wait),
            EventView::Delivered(origin) => if origin != s.id {
                (s, Reaction::Forward)
            } else {
                (s, Reaction::Wait)
            },
            EventView::Lagged => (s, Reaction::Wait),
            EventView::PublishFailed => (closed, Reaction::Close),
        }
    }
}

/// The per-client session: which client it serves, and whether it is still active.
pub struct Session {
    id: u16,
    open: bool,
}

impl View for Session {
    type V = SessionState;

    closed spec fn view(&self) -> SessionState {
        SessionState { id: self.id, open: self.open }
    }
}

impl Session {
    /// An active session for the client with identifier `id`.
    pub fn new(id: u16) -> (s: Session)
        ensures
            s@ == (SessionState { id: id, open: true }),
    {
        Session { id, open: true }
    }

    /// The session's identifier.
    pub fn id(&self) -> (r: u16)
        ensures
            r == self@.id,
    {
        self.id
    }

    /// Whether the session is still active.
    pub fn is_open(&self) -> (r: bool)
        ensures
            r == self@.open,
    {
        self.open
    }

    /// The greeting written to the client when the session starts.
    pub fn greeting(&self) -> (r: Vec<u8>)
        ensures
            r@ == welcome_spec(self@.id),
    {
        welcome_line(self.id)
    }

    /// Decides what to do about one event and moves to the next state.
    pub fn handle(&mut self, ev: &SessionEvent) -> (a: SessionAction)
        ensures
            final(self)@ == step(old(self)@, ev@).0,
            a@ == step(old(self)@, ev@).1,
    {
        if !self.open {
            return SessionAction::Wait;
        }
        match ev {
            SessionEvent::Shutdown(v) => {
                if *v {
                    self.open = false;
                    SessionAction::Close
                } else {
                    SessionAction::Wait
                }
            },
            SessionEvent::Read(data) => {
                if data.len() == 0 {
                    self.open = false;
                    SessionAction::Farewell(disconnect_notice(self.id))
                } else {
                    SessionAction::Publish(chat_line(self.id, data.as_slice()))
                }
            },
            SessionEvent::ReadFailed => SessionAction::Wait,
            SessionEvent::Delivered(origin) => {
                if *origin != self.id {
                    SessionAction::Forward
                } else {
                    SessionAction::Wait
                }
            },
            SessionEvent::Lagged => SessionAction::Wait,
            SessionEvent::PublishFailed => {
                self.open = false;
                SessionAction::Close
            },
        }
    }
}

/// The reactions of a session to a sequence of events, first to last, and its state
/// after them.
pub open spec fn session_run(s: SessionState, evs: Seq<EventView>) -> (SessionState, Seq<Reaction>)
    decreases evs.len(),
{
    if evs.len() == 0 {
        (s, Seq::empty())
    } else {
        let (s1, r) = step(s, evs[0]);
        let (s2, rest) = session_run(s1, evs.drop_first());
        (s2, seq![r] + rest)
    }
}

/// How many farewell notices a sequence of reactions publishes.
pub open spec fn farewells(rs: Seq<Reaction>) -> nat
    decreases rs.len(),
{
    if rs.len() == 0 {
        0
    } else {
        (if rs[0] is Farewell { 1nat } else { 0nat }) + farewells(rs.drop_first())
    }
}

/// Whether an active session with identifier `id` writes to its client a message
/// that the hub delivered from `origin`.
pub open spec fn forwards(id: u16, origin: u16) -> bool {
    step(SessionState { id: id, open: true }, EventView::Delivered(origin)).1 == Reaction::Forward
}

/// Among active sessions with distinct identifiers, a message published by one of
/// them is written out by every other one and never by the one that published it.
pub proof fn lemma_fan_out(ids: Seq<u16>, i: int)
    requires
        ids.no_duplicates(),
        0 <= i < ids.len(),
    ensures
        forall|j: int| 0 <= j < ids.len() ==> (#[trigger] forwards(ids[j], ids[i]) <==> j != i),
        Set::new(|j: int| 0 <= j < ids.len() && forwards(ids[j], ids[i])).len() == ids.len() - 1,
{
    let n = ids.len() as int;
    let receivers = Set::new(|j: int| 0 <= j < n && forwards(ids[j], ids[i]));
    assert(receivers =~= set_int_range(0, n).remove(i));
    lemma_int_range(0, n);
}

/// A line read from the client is published ending in exactly the newline it had,
/// or in one newline added to it where it had none.
pub proof fn lemma_line_terminated(id: u16, line: Seq<u8>)
    requires
        line.len() > 0,
    ensures
        step(SessionState { id: id, open: true }, EventView::Read(line)).1 == Reaction::Publish(
            chat_spec(id, line),
        ),
        ends_with_newline(chat_spec(id, line)),
        ends_with_newline(line) ==> chat_spec(id, line) == chat_prefix(id) + line,
        !ends_with_newline(line) ==> chat_spec(id, line) == (chat_prefix(id) + line).push(NEWLINE),
{
    let whole = chat_prefix(id) + line;
    assert(whole.last() == line.last());
}

proof fn lemma_run_len(s: SessionState, evs: Seq<EventView>)
    ensures
        session_run(s, evs).1.len() == evs.len(),
    decreases evs.len(),
{
    if evs.len() > 0 {
        lemma_run_len(step(s, evs[0]).0, evs.drop_first());
    }
}

proof fn lemma_closed_waits(s: SessionState, evs: Seq<EventView>)
    requires
        !s.open,
    ensures
        session_run(s, evs).0 == s,
        session_run(s, evs).1 == Seq::new(evs.len(), |i: int| Reaction::Wait),
        farewells(session_run(s, evs).1) == 0,
    decreases evs.len(),
{
    if evs.len() > 0 {
        lemma_closed_waits(s, evs.drop_first());
        assert(session_run(s, evs).1 =~= Seq::new(evs.len(), |i: int| Reaction::Wait));
        assert(session_run(s, evs).1.drop_first() =~= session_run(s, evs.drop_first()).1);
    }
}

/// Whatever a session observes, it publishes at most one disconnect notice, the one
/// naming itself; an active session whose client closes publishes it at once.
pub proof fn lemma_farewell_once(s: SessionState, evs: Seq<EventView>)
    ensures
        session_run(s, evs).1.len() == evs.len(),
        farewells(session_run(s, evs).1) <= 1,
        forall|k: int|
            0 <= k < evs.len() && #[trigger] session_run(s, evs).1[k] is Farewell ==> session_run(
                s,
                evs,
            ).1[k] == Reaction::Farewell(disconnect_spec(s.id)),
        s.open && evs.len() > 0 && evs[0] == EventView::Read(Seq::empty()) ==> session_run(s, evs).1[0]
            == Reaction::Farewell(disconnect_spec(s.id)) && farewells(session_run(s, evs).1) == 1,
    decreases evs.len(),
{
    if evs.len() > 0 {
        let (s1, r) = step(s, evs[0]);
        let rest = session_run(s1, evs.drop_first()).1;
        lemma_run_len(s1, evs.drop_first());
        assert(session_run(s, evs).1.drop_first() =~= rest);
        assert(s1.id == s.id);
        if r is Farewell {
            lemma_closed_waits(s1, evs.drop_first());
        } else {
            lemma_farewell_once(s1, evs.drop_first());
        }
        assert forall|k: int|
            0 <= k < evs.len() && #[trigger] session_run(s, evs).1[k] is Farewell implies session_run(
                s,
                evs,
            ).1[k] == Reaction::Farewell(disconnect_spec(s.id)) by {
            if k > 0 {
                assert(session_run(s, evs).1[k] == rest[k - 1]);
                if r is Farewell {
                    assert(rest[k - 1] == Reaction::Wait);
                }
            }
        }
    }
}

/// A subscription that fell behind loses only the messages the hub dropped for it: the
/// session stays as it was and goes on answering later deliveries.
pub proof fn lemma_lag_is_harmless(s: SessionState, origin: u16)
    requires
        s.open,
    ensures
        step(s, EventView::Lagged) == (s, Reaction::Wait),
        step(step(s, EventView::Lagged).0, EventView::Delivered(origin)) == step(
            s,
            EventView::Delivered(origin),
        ),
{
}

/// Once an active session sees the shutdown value true it closes, and it reacts to
/// nothing it observes afterwards: no further input from its client is needed.
pub proof fn lemma_session_shutdown(s: SessionState, evs: Seq<EventView>)
    requires
        s.open,
    ensures
        step(s, EventView::Shutdown(true)).1 == Reaction::Close,
        !step(s, EventView::Shutdown(true)).0.open,
        forall|i: int|
            0 <= i < evs.len() ==> #[trigger] session_run(step(s, EventView::Shutdown(true)).0, evs).1[i]
                == Reaction::Wait,
{
    lemma_closed_waits(step(s, EventView::Shutdown(true)).0, evs);
}

} // verus!
