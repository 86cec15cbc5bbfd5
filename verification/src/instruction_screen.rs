//! The screen that explains the game before it begins.

use vstd::prelude::*;

verus! {

/// Whether the player reads the instructions or plays.
#[derive(Debug, Copy, Clone, Hash, PartialEq, Eq, Structural)]
pub enum GameState {
    Menu,
    Play,
}

impl Default for GameState {
    fn default() -> (r: Self)
        ensures
            r == GameState::Menu,
    {
        GameState::Menu
    }
}

/// What runs only during play.
#[derive(Debug, Copy, Clone, Hash, PartialEq, Eq, Structural)]
pub struct GameRunSet;

impl GameRunSet {
    /// Whether what runs only during play runs in `state`.
    pub fn runs_in(&self, state: GameState) -> (r: bool)
        ensures
            r == (state == GameState::Play),
    {
        match state {
            GameState::Play => true,
            GameState::Menu => false,
        }
    }
}

/// While the instructions are shown, any key or mouse button that is held
/// down begins the play. `keys` and `buttons` are the numbers of keys and of
/// mouse buttons that are held down.
pub fn input_check_game_state_ready(state: GameState, keys: usize, buttons: usize) -> (r: Option<
    GameState,
>)
    ensures
        r == if state == GameState::Menu && (keys > 0 || buttons > 0) {
            Some(GameState::Play)
        } else {
            None
        },
{
    match state {
        GameState::Menu => {
            if keys > 0 || buttons > 0 {
                Some(GameState::Play)
            } else {
                None
            }
        },
        GameState::Play => None,
    }
}

} // verus!
