//! The time that a run through the game takes.

use crate::text::{decimal_text, push_decimal};
use crate::win::WinGameEvent;
use vstd::prelude::*;

verus! {

/// A tenth of a second.
pub const TENTH: u64 = 100_000;

/// The game has started.
#[derive(Debug, Copy, Clone, Default, PartialEq, Eq, Structural)]
pub struct StartGameEvent;

/// The time on the clock when the game started.
#[derive(Debug, Copy, Clone, Default, PartialEq, Eq, Structural)]
pub struct StartTime(pub u64);

/// The tenths of a second nearest to the time from `start` to `end`, half a
/// tenth counting as a whole one. The clock does not run backwards: an end
/// before the start is no time at all.
pub open spec fn elapsed_tenths(start: u64, end: u64) -> int {
    if end <= start {
        0
    } else {
        (end - start + TENTH / 2) / (TENTH as int)
    }
}

/// A number of tenths as seconds: `12.3`, and `12` where no tenth is left over.
pub open spec fn tenths_text(tenths: nat) -> Seq<char> {
    if tenths % 10 == 0 {
        decimal_text(tenths / 10)
    } else {
        decimal_text(tenths / 10) + "."@ + decimal_text(tenths % 10)
    }
}

/// What the player reads at the end of a run from `start` to `end`.
pub open spec fn completion_text(start: u64, end: u64) -> Seq<char> {
    "Completed in "@ + tenths_text(elapsed_tenths(start, end) as nat) + " seconds!"@
}

/// Notes the time on the clock when the game starts.
pub fn start_timer(start_game: Option<StartGameEvent>, start_time: &mut StartTime, elapsed: u64)
    ensures
        final(start_time).0 == if start_game is Some {
            elapsed
        } else {
            old(start_time).0
        },
{
    if start_game.is_some() {
        start_time.0 = elapsed;
    }
}

/// On a win, the line that tells the player how long the run took, to the
/// nearest tenth of a second.
pub fn end_timer(win_game: Option<WinGameEvent>, start_time: &StartTime, elapsed: u64) -> (r:
    Option<String>)
    ensures
        win_game is None ==> r is None,
        win_game is Some ==> r is Some && r->0@ == completion_text(start_time.0, elapsed),
{
    if win_game.is_none() {
        return None;
    }
    let tenths: u64 = if elapsed <= start_time.0 {
        0
    } else {
        let total: u64 = elapsed - start_time.0;
        if total > u64::MAX - TENTH / 2 {
            (total - TENTH / 2) / TENTH + 1
        } else {
            (total + TENTH / 2) / TENTH
        }
    };
    assert(tenths == elapsed_tenths(start_time.0, elapsed));
    let mut text = String::from_str("Completed in ");
    push_decimal(&mut text, tenths / 10);
    if tenths % 10 != 0 {
        text.append(".");
        push_decimal(&mut text, tenths % 10);
    }
    text.append(" seconds!");
    assert(text@ =~= completion_text(start_time.0, elapsed));
    Some(text)
}

} // verus!
