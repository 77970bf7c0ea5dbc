use vstd::prelude::*;

verus! {

/// A command sent by an observer over its connection.
#[derive(Clone, Copy, Debug, PartialEq, Eq, Structural)]
pub enum ClientMessage {
    /// Ask for a snapshot of the world right away.
    RequestState,
    /// Ask for the simulation to be paused or resumed.
    SetPaused { paused: bool },
}

} // verus!
