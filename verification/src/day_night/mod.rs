//! Day and night.

use crate::player::respawn::PlayerFinishLevelEvent;
use vstd::prelude::*;

pub mod music;
pub mod night;

verus! {

/// The half of the cycle that a level is played in.
#[derive(Debug, Copy, Clone, Hash, PartialEq, Eq, Structural)]
pub enum DayNightState {
    Day,
    Night,
}

impl Default for DayNightState {
    fn default() -> (r: Self)
        ensures
            r == DayNightState::Day,
    {
        DayNightState::Day
    }
}

/// The cycle is to go to this half.
#[derive(Debug, Copy, Clone, PartialEq, Eq, Structural)]
pub struct SetDayNightEvent(pub DayNightState);

/// What runs only at night.
#[derive(Debug, Copy, Clone, Hash, PartialEq, Eq, Structural)]
pub struct NightCycleSet;

/// What runs only during the day.
#[derive(Debug, Copy, Clone, Hash, PartialEq, Eq, Structural)]
pub struct DayCycleSet;

impl NightCycleSet {
    /// Whether what runs only at night runs in `state`.
    pub fn runs_in(&self, state: DayNightState) -> (r: bool)
        ensures
            r == (state == DayNightState::Night),
    {
        match state {
            DayNightState::Night => true,
            DayNightState::Day => false,
        }
    }
}

impl DayCycleSet {
    /// Whether what runs only during the day runs in `state`.
    pub fn runs_in(&self, state: DayNightState) -> (r: bool)
        ensures
            r == (state == DayNightState::Day),
    {
        match state {
            DayNightState::Day => true,
            DayNightState::Night => false,
        }
    }
}

impl DayNightState {
    /// The other half of the cycle.
    pub open spec fn other(self) -> DayNightState {
        match self {
            DayNightState::Day => DayNightState::Night,
            DayNightState::Night => DayNightState::Day,
        }
    }
}

/// Turns the cycle on by half at the end of a level: the first pending end
/// of a level, and no other, takes day to night and night to day, and the
/// new half is handed back so that the sky can take its colour.
pub fn change_day_night_cycle(
    state: &mut DayNightState,
    player_finish_level: Option<PlayerFinishLevelEvent>,
) -> (r: Option<DayNightState>)
    ensures
        player_finish_level is None ==> r is None && *final(state) == *old(state),
        player_finish_level is Some ==> {
            &&& r == Some(old(state).other())
            &&& *final(state) == old(state).other()
        },
{
    if player_finish_level.is_some() {
        let next = match *state {
            DayNightState::Day => DayNightState::Night,
            DayNightState::Night => DayNightState::Day,
        };
        *state = next;
        Some(next)
    } else {
        None
    }
}

/// Takes the first pending request for a change of the cycle, and no other:
/// the cycle goes to the half asked for, which is handed back so that the sky
/// can take its colour. Without a request the cycle stays as it is.
pub fn set_day_night_cycle(state: &mut DayNightState, set_day_night: Option<SetDayNightEvent>) -> (r:
    Option<DayNightState>)
    ensures
        set_day_night is None ==> r is None && *final(state) == *old(state),
        set_day_night is Some ==> r == Some((set_day_night->0).0) && *final(state) == (
        set_day_night->0).0,
{
    match set_day_night {
        Some(set_day_night) => {
            *state = set_day_night.0;
            Some(set_day_night.0)
        },
        None => None,
    }
}

} // verus!
