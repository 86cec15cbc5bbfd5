//! The music of the day and of the night, which fade into each other.

use crate::day_night::DayNightState;
use crate::math::{clamped, UNIT};
use vstd::prelude::*;

verus! {

/// The time in which a piece of music fades in or out.
pub const FADE_TIME: u64 = 4_000_000;

/// Whether a piece of music fades in or out.
#[derive(Debug, Copy, Clone, PartialEq, Eq, Structural)]
pub enum FadeAudioDirection {
    Increasing,
    Decreasing,
}

/// The directions in which the two pieces of music fade.
#[derive(Debug, Copy, Clone, PartialEq, Eq, Structural)]
pub struct MusicFade {
    pub day: FadeAudioDirection,
    pub night: FadeAudioDirection,
}

/// What one tick of fading does to a piece of music.
#[derive(Debug, Copy, Clone, PartialEq, Eq, Structural)]
pub struct FadeStep {
    /// The new volume, between nought and one.
    pub volume: i64,
    /// The piece is to play.
    pub play: bool,
    /// The piece is to pause.
    pub pause: bool,
    /// The fade has ended.
    pub finished: bool,
}

/// The volume after a tick of length `delta`: a quarter of `delta` up or
/// down, within nought and one.
pub open spec fn faded_volume(volume: i64, direction: FadeAudioDirection, delta: u64) -> int {
    clamped(volume + direction.fade_multiplier() * (delta / 4), 0, UNIT as int)
}

impl FadeAudioDirection {
    /// One for fading in, minus one for fading out.
    pub open spec fn fade_multiplier(self) -> int {
        match self {
            FadeAudioDirection::Increasing => 1,
            FadeAudioDirection::Decreasing => -1,
        }
    }

    /// One for fading in, minus one for fading out.
    pub fn get_fade_multiplier(&self) -> (r: i64)
        ensures
            r == self.fade_multiplier(),
    {
        match self {
            FadeAudioDirection::Increasing => 1,
            FadeAudioDirection::Decreasing => -1,
        }
    }
}

/// As the game starts the music of the day fades in.
pub fn setup_music() -> (r: FadeAudioDirection)
    ensures
        r == FadeAudioDirection::Increasing,
{
    FadeAudioDirection::Increasing
}

/// As night falls the music of the night fades in and that of the day out.
pub fn night_music() -> (r: MusicFade)
    ensures
        r == (MusicFade {
            day: FadeAudioDirection::Decreasing,
            night: FadeAudioDirection::Increasing,
        }),
{
    MusicFade { day: FadeAudioDirection::Decreasing, night: FadeAudioDirection::Increasing }
}

/// As day breaks the music of the day fades in and that of the night out.
pub fn day_music() -> (r: MusicFade)
    ensures
        r == (MusicFade {
            day: FadeAudioDirection::Increasing,
            night: FadeAudioDirection::Decreasing,
        }),
{
    MusicFade { day: FadeAudioDirection::Increasing, night: FadeAudioDirection::Decreasing }
}

/// The fades that set in as the cycle enters `state`.
pub fn music_for(state: DayNightState) -> (r: MusicFade)
    ensures
        r.day == if state == DayNightState::Day {
            FadeAudioDirection::Increasing
        } else {
            FadeAudioDirection::Decreasing
        },
        r.night == if state == DayNightState::Night {
            FadeAudioDirection::Increasing
        } else {
            FadeAudioDirection::Decreasing
        },
{
    match state {
        DayNightState::Day => day_music(),
        DayNightState::Night => night_music(),
    }
}

/// Fades a piece of music through a tick of length `delta`. The volume moves
/// by a quarter of `delta`, so that a whole fade takes [`FADE_TIME`], and
/// stays within nought and one. A piece that fades in plays, and its fade
/// ends at full volume; a piece that fades out pauses once it is silent, and
/// its fade ends there.
pub fn fade_audio(volume: i64, direction: FadeAudioDirection, delta: u64) -> (r: FadeStep)
    ensures
        r.volume == faded_volume(volume, direction, delta),
        0 <= r.volume <= UNIT,
        r.play == (direction == FadeAudioDirection::Increasing),
        r.pause == (direction == FadeAudioDirection::Decreasing && r.volume == 0),
        r.finished == match direction {
            FadeAudioDirection::Increasing => r.volume == UNIT,
            FadeAudioDirection::Decreasing => r.volume == 0,
        },
{
    let step: i128 = (delta / 4) as i128;
    let moved: i128 = match direction {
        FadeAudioDirection::Increasing => volume as i128 + step,
        FadeAudioDirection::Decreasing => volume as i128 - step,
    };
    let volume: i64 = if moved < 0 {
        0
    } else if moved > UNIT as i128 {
        UNIT
    } else {
        moved as i64
    };
    match direction {
        FadeAudioDirection::Increasing => FadeStep {
            volume,
            play: true,
            pause: false,
            finished: volume >= UNIT,
        },
        FadeAudioDirection::Decreasing => FadeStep {
            volume,
            play: false,
            pause: volume <= 0,
            finished: volume <= 0,
        },
    }
}

} // verus!
