//! Event names exchanged with the surrounding application, and the state
//! of a game session as the replay watcher reports it.

use vstd::prelude::*;

verus! {

/// Emitted when a new replay file is created (a game started).
pub const FILE_CREATED: &'static str = "slp-file-created";

/// Emitted when an existing replay file is modified (a game ended).
pub const FILE_MODIFIED: &'static str = "slp-file-modified";

/// Emitted when the last replay path is updated.
pub const LAST_REPLAY_UPDATED: &'static str = "last-replay-updated";

/// Emitted when recording starts, with the output path.
pub const STARTED: &'static str = "recording-started";

/// Emitted when recording stops, with the output path.
pub const STOPPED: &'static str = "recording-stopped";

/// Emitted when clips have been created, with the clip paths.
pub const CREATED: &'static str = "clips-created";

/// The current state of a game session.
#[derive(Debug, Clone, Copy, PartialEq, Eq, Structural)]
pub enum GameState {
    /// No game is currently active.
    Idle,
    /// A game is in progress: its file was created but not finalised.
    InProgress,
    /// The game has ended: its file was modified and finalised.
    Ended,
}

impl Default for GameState {
    /// A session starts idle.
    fn default() -> (r: Self)
        ensures
            r == GameState::Idle,
    {
        GameState::Idle
    }
}

impl GameState {
    /// A short human-readable name for the state.
    pub fn name(&self) -> (r: &'static str)
        ensures
            self is Idle ==> r@ == "Idle"@,
            self is InProgress ==> r@ == "In Progress"@,
            self is Ended ==> r@ == "Ended"@,
    {
        match self {
            GameState::Idle => "Idle",
            GameState::InProgress => "In Progress",
            GameState::Ended => "Ended",
        }
    }
}

} // verus!
