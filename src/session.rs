use vstd::prelude::*;
use crate::message::ClientMessage;

verus! {

/// Simulated time that each high-frequency tick advances the engine by.
pub const TICK_STEP_MS: u64 = 100;

/// Wall-clock period of the high-frequency tick action (10 Hz).
pub const TICK_PERIOD_MS: u64 = 100;

/// Wall-clock period of the low-frequency snapshot action (1 Hz).
pub const BROADCAST_PERIOD_MS: u64 = 1000;

/// Whether every observer sees one world, or each connection its own.
#[derive(Clone, Copy, Debug, PartialEq, Eq, Structural)]
pub enum WorldMode {
    /// One engine, shared by all connections.
    Shared,
    /// A fresh engine for each connection.
    Isolated,
}

/// What happened on a connection since the last decision.
#[derive(Clone, Copy, Debug, PartialEq, Eq, Structural)]
pub enum Event {
    /// The tick timer fired.
    TickDue,
    /// The broadcast timer fired.
    BroadcastDue,
    /// The observer sent a command.
    Command(ClientMessage),
    /// The observer's transport closed.
    TransportClosed,
    /// Sending to the observer, or queueing for it, failed.
    SendFailed,
}

/// What the connection's task is to do next.
#[derive(Clone, Copy, Debug, PartialEq, Eq, Structural)]
pub enum Action {
    /// Tick the engine by `step_ms` simulated milliseconds.
    Tick { step_ms: u64 },
    /// Take a snapshot and send it to the observer.
    SendSnapshot,
    /// Nothing to do.
    Idle,
    /// Stop the task: the connection is over.
    Close,
}

/// The decision state of one connection.
#[derive(Clone, Copy, Debug, PartialEq, Eq, Structural)]
pub struct Session {
    /// The last pause request of the observer. It is recorded only: ticking
    /// goes on whatever it says.
    pub paused: bool,
    /// False once the transport closed or a send failed.
    pub open: bool,
}

/// The state and action that follow `event` in state `s`.
pub open spec fn next_spec(s: Session, event: Event) -> (Session, Action) {
    if !s.open {
        (s, Action::Close)
    } else {
        match event {
            Event::TickDue => (s, Action::Tick { step_ms: TICK_STEP_MS }),
            Event::BroadcastDue => (s, Action::SendSnapshot),
            Event::Command(ClientMessage::RequestState) => (s, Action::SendSnapshot),
            Event::Command(ClientMessage::SetPaused { paused }) => (
                Session { paused, open: true },
                Action::Idle,
            ),
            Event::TransportClosed => (Session { paused: s.paused, open: false }, Action::Close),
            Event::SendFailed => (Session { paused: s.paused, open: false }, Action::Close),
        }
    }
}

impl Session {
    /// A connection just opened: not paused, open.
    pub fn new() -> (r: Session)
        ensures
            r == (Session { paused: false, open: true }),
    {
        Session { paused: false, open: true }
    }

    /// Takes in `event` and says what to do about it.
    pub fn step(&mut self, event: Event) -> (r: Action)
        ensures
            (*final(self), r) == next_spec(*old(self), event),
    {
        if !self.open {
            return Action::Close;
        }
        match event {
            Event::TickDue => Action::Tick { step_ms: TICK_STEP_MS },
            Event::BroadcastDue => Action::SendSnapshot,
            Event::Command(ClientMessage::RequestState) => Action::SendSnapshot,
            Event::Command(ClientMessage::SetPaused { paused }) => {
                self.paused = paused;
                Action::Idle
            },
            Event::TransportClosed => {
                self.open = false;
                Action::Close
            },
            Event::SendFailed => {
                self.open = false;
                Action::Close
            },
        }
    }
}

/// Once a connection is over, every later event ends in `Close` and changes
/// nothing.
pub proof fn lemma_closed_stays_closed(s: Session, event: Event)
    requires
        !s.open,
    ensures
        next_spec(s, event) == (s, Action::Close),
{
}

/// The pause flag has no effect on ticking: a due tick always asks for one
/// fixed step while the connection is open.
pub proof fn lemma_pause_does_not_stop_ticks(s: Session)
    requires
        s.open,
    ensures
        next_spec(s, Event::TickDue).1 == (Action::Tick { step_ms: TICK_STEP_MS }),
        next_spec(s, Event::BroadcastDue).1 == Action::SendSnapshot,
{
}

} // verus!
