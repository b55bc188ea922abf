use vstd::prelude::*;
use crate::wire::{next_id, successor};

verus! {

/// What one iteration of the accept loop observed.
#[derive(Clone, Copy, PartialEq, Eq, Structural)]
pub enum ListenerEvent {
    /// The shutdown watch delivered this value.
    Shutdown(bool),
    /// A connection was accepted.
    Accepted,
    /// Accepting a connection failed.
    AcceptFailed,
}

/// What the accept loop is to do in answer to an event.
#[derive(Clone, Copy, PartialEq, Eq, Structural)]
pub enum ListenerAction {
    /// Nothing; wait for the next event.
    Wait,
    /// Start a session with this identifier for the accepted connection.
    Spawn(u16),
    /// Stop accepting and leave the loop.
    Stop,
}

/// The abstract state of the accept loop: the identifier the next client gets,
/// and whether connections are still being admitted.
pub ghost struct ListenerState {
    pub next_id: u16,
    pub running: bool,
}

/// The state of a listener that has not admitted anyone yet.
pub open spec fn fresh() -> ListenerState {
    ListenerState { next_id: 0, running: true }
}

/// How a running accept loop answers one event, and the state it moves to.
/// A stopped loop stays stopped and does nothing.
pub open spec fn listener_step(s: ListenerState, ev: ListenerEvent) -> (ListenerState, ListenerAction) {
    let stopped = ListenerState { next_id: s.next_id, running: false };
    if !s.running {
        (s, ListenerAction::Wait)
    } else {
        match ev {
            ListenerEvent::Shutdown(v) => if v {
                (stopped, ListenerAction::Stop)
            } else {
                (s, ListenerAction::Wait)
            },
            ListenerEvent::Accepted => (
                ListenerState { next_id: successor(s.next_id), running: true },
                ListenerAction::Spawn(s.next_id),
            ),
            ListenerEvent::AcceptFailed => (stopped, ListenerAction::Stop),
        }
    }
}

/// The accept loop's own state: the identifier counter it alone owns.
pub struct Listener {
    next_id: u16,
    running: bool,
}

impl View for Listener {
    type V = ListenerState;

    closed spec fn view(&self) -> ListenerState {
        ListenerState { next_id: self.next_id, running: self.running }
    }
}

impl Listener {
    /// A running listener whose first client gets identifier 0.
    pub fn new() -> (l: Listener)
        ensures
            l@ == fresh(),
    {
        Listener { next_id: 0, running: true }
    }

    /// Whether connections are still being admitted.
    pub fn is_running(&self) -> (r: bool)
        ensures
            r == self@.running,
    {
        self.running
    }

    /// The identifier the next accepted client gets.
    pub fn peek_next_id(&self) -> (r: u16)
        ensures
            r == self@.next_id,
    {
        self.next_id
    }

    /// Decides what to do about one event and moves to the next state.
    pub fn handle(&mut self, ev: ListenerEvent) -> (a: ListenerAction)
        ensures
            final(self)@ == listener_step(old(self)@, ev).0,
            a == listener_step(old(self)@, ev).1,
    {
        if !self.running {
            return ListenerAction::Wait;
        }
        match ev {
            ListenerEvent::Shutdown(v) => {
                if v {
                    self.running = false;
                    ListenerAction::Stop
                } else {
                    ListenerAction::Wait
                }
            },
            ListenerEvent::Accepted => {
                let id: u16 = self.next_id;
                self.next_id = next_id(id);
                ListenerAction::Spawn(id)
            },
            ListenerEvent::AcceptFailed => {
                self.running = false;
                ListenerAction::Stop
            },
        }
    }
}

/// The actions a listener takes for a sequence of events, first to last, and its
/// state after them.
pub open spec fn listener_run(s: ListenerState, evs: Seq<ListenerEvent>) -> (ListenerState, Seq<ListenerAction>)
    decreases evs.len(),
{
    if evs.len() == 0 {
        (s, Seq::empty())
    } else {
        let (s1, a) = listener_step(s, evs[0]);
        let (s2, rest) = listener_run(s1, evs.drop_first());
        (s2, seq![a] + rest)
    }
}

/// `n` accepted connections in a row.
pub open spec fn accepts(n: nat) -> Seq<ListenerEvent> {
    Seq::new(n, |i: int| ListenerEvent::Accepted)
}

/// The identifier an action starts a session with, or -1 where it starts none.
pub open spec fn spawned(a: ListenerAction) -> int {
    match a {
        ListenerAction::Spawn(id) => id as int,
        _ => -1,
    }
}

proof fn lemma_accepts_from(s: ListenerState, k: nat)
    requires
        s.running,
    ensures
        listener_run(s, accepts(k)).1.len() == k,
        forall|i: int|
            0 <= i < k ==> #[trigger] listener_run(s, accepts(k)).1[i] == ListenerAction::Spawn(
                ((s.next_id + i) % 0x1_0000) as u16,
            ),
    decreases k,
{
    if k > 0 {
        let s1 = listener_step(s, ListenerEvent::Accepted).0;
        assert(accepts(k).drop_first() =~= accepts((k - 1) as nat));
        lemma_accepts_from(s1, (k - 1) as nat);
        let acts = listener_run(s, accepts(k)).1;
        assert forall|i: int| 0 <= i < k implies #[trigger] acts[i] == ListenerAction::Spawn(
            ((s.next_id + i) % 0x1_0000) as u16,
        ) by {
            if i > 0 {
                assert(acts[i] == listener_run(s1, accepts((k - 1) as nat)).1[i - 1]);
                assert(((s.next_id + 1) % 0x1_0000 + (i - 1)) % 0x1_0000 == (s.next_id + i)
                    % 0x1_0000) by (nonlinear_arith)
                    requires
                        0 <= s.next_id < 0x1_0000,
                        i >= 1,
                ;
            }
        }
    }
}

/// A listener that has started admits its clients under the identifiers 0, 1, 2, ...
/// in the order they are accepted: the identifiers increase strictly until the 16-bit
/// range is used up, and the client after the one numbered 65535 is numbered 0 again.
pub proof fn lemma_ids_in_order(k: nat)
    ensures
        listener_run(fresh(), accepts(k)).1.len() == k,
        forall|i: int|
            0 <= i < k ==> #[trigger] listener_run(fresh(), accepts(k)).1[i] == ListenerAction::Spawn(
                (i % 0x1_0000) as u16,
            ),
        forall|i: int, j: int|
            0 <= i < j < k && j < 0x1_0000 ==> #[trigger] spawned(
                listener_run(fresh(), accepts(k)).1[i],
            ) < #[trigger] spawned(listener_run(fresh(), accepts(k)).1[j]),
        k > 0x1_0000 ==> listener_run(fresh(), accepts(k)).1[0x1_0000] == ListenerAction::Spawn(0),
{
    lemma_accepts_from(fresh(), k);
}

proof fn lemma_stopped_waits(s: ListenerState, evs: Seq<ListenerEvent>)
    requires
        !s.running,
    ensures
        listener_run(s, evs).0 == s,
        listener_run(s, evs).1 == Seq::new(evs.len(), |i: int| ListenerAction::Wait),
    decreases evs.len(),
{
    if evs.len() > 0 {
        lemma_stopped_waits(s, evs.drop_first());
        assert(listener_run(s, evs).1 =~= Seq::new(evs.len(), |i: int| ListenerAction::Wait));
    }
}

/// Once a running listener sees the shutdown value true it stops, and whatever it
/// observes afterwards it starts no session.
pub proof fn lemma_listener_shutdown(s: ListenerState, evs: Seq<ListenerEvent>)
    requires
        s.running,
    ensures
        listener_step(s, ListenerEvent::Shutdown(true)).1 == ListenerAction::Stop,
        !listener_step(s, ListenerEvent::Shutdown(true)).0.running,
        forall|i: int|
            0 <= i < evs.len() ==> #[trigger] listener_run(
                listener_step(s, ListenerEvent::Shutdown(true)).0,
                evs,
            ).1[i] == ListenerAction::Wait,
{
    lemma_stopped_waits(listener_step(s, ListenerEvent::Shutdown(true)).0, evs);
}

} // verus!
