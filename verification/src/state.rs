//! The phases of a game and the commands a player can give.

use vstd::prelude::*;

verus! {

/// The phase a game is in. A game starts running and never leaves
/// `GameOver`.
#[derive(Clone, Copy, Debug, PartialEq, Eq)]
pub enum GameState {
    Running,
    GameOver,
    Paused,
}

impl GameState {
    /// The phase after the pause command: running and paused games swap, a
    /// finished game stays finished.
    pub open spec fn toggled(self) -> GameState {
        match self {
            GameState::Running => GameState::Paused,
            GameState::Paused => GameState::Running,
            GameState::GameOver => GameState::GameOver,
        }
    }

    /// Applies the pause command.
    pub fn toggle_pause(self) -> (next: GameState)
        ensures
            next == self.toggled(),
    {
        match self {
            GameState::Running => GameState::Paused,
            GameState::Paused => GameState::Running,
            GameState::GameOver => GameState::GameOver,
        }
    }
}

/// What a key or button stands for.
#[derive(Clone, Copy, Debug, PartialEq, Eq)]
pub enum Control {
    MoveLeft,
    MoveRight,
    Shoot,
    TogglePause,
    Quit,
}

/// A change of a control: input is reported on the edges, not polled.
#[derive(Clone, Copy, Debug, PartialEq, Eq)]
pub enum InputEvent {
    Press(Control),
    Release(Control),
}

/// No pause command leads out of a finished game, and none leads into it.
pub proof fn lemma_game_over_is_terminal(state: GameState)
    ensures
        state.toggled() == GameState::GameOver <==> state == GameState::GameOver,
{
}

} // verus!
