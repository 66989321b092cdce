//! The states of the game and the events that a frame can report.

use vstd::prelude::*;

verus! {

/// The two states of the game. Exactly one is current at any time.
#[derive(Clone, Copy, Debug, PartialEq, Eq, Hash, Structural)]
pub enum GameState {
    /// No round is running; the high score is on display.
    Menu,
    /// A round is running.
    Playing,
}

impl Default for GameState {
    fn default() -> (s: GameState)
        ensures
            s == GameState::Menu,
    {
        GameState::Menu
    }
}

/// What happened in a frame that the presentation may want to show or
/// sound.
#[derive(Clone, Copy, Debug, PartialEq, Eq, Hash, Structural)]
pub enum GameEvent {
    /// A round began.
    RoundStarted,
    /// The player picked up a coin.
    PickupCollected,
    /// The player ran into an astroid and the round ended.
    RoundLost,
}

} // verus!
