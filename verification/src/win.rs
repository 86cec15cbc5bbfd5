//! Winning the game.

use crate::levels::LoadLevelEvent;
use vstd::prelude::*;

verus! {

/// The index of the level that is shown once the game is won.
pub const WIN_LEVEL_INDEX: u32 = 999;

/// The last level was finished.
#[derive(Debug, Copy, Clone, Default, PartialEq, Eq, Structural)]
pub struct WinGameEvent;

/// On a win the closing level is asked for.
pub fn check_win_game(win_game: Option<WinGameEvent>) -> (r: Option<LoadLevelEvent>)
    ensures
        r == if win_game is Some {
            Some(LoadLevelEvent(WIN_LEVEL_INDEX))
        } else {
            None
        },
{
    match win_game {
        Some(_) => Some(LoadLevelEvent(WIN_LEVEL_INDEX)),
        None => None,
    }
}

} // verus!
