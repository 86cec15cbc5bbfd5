//! Melting: the time that the player spends under the open sky, and the
//! stages that it melts through.

use crate::day_night::DayNightState;
use crate::math::{fixed_mul, scale_fixed, FixedVec2};
use crate::player::{sprite_rect, sprite_rect_of, Player, SpriteRect, CAST_COLLIDER_SCALE};
use vstd::prelude::*;

verus! {

/// The time under the sun after which the player melts by one stage.
pub const MELT_INTERVAL: u64 = 3_000_000;

/// The time that the player has spent under the open sky since it was last
/// in the shade, melted by a stage or was put back at the spawn point.
#[derive(Debug, Copy, Clone, Default, PartialEq, Eq, Structural)]
pub struct TimeUnderSun(pub u64);

/// The player is to take this melt stage.
#[derive(Debug, Copy, Clone, PartialEq, Eq, Structural)]
pub struct SetMeltStageEvent(pub MeltStage);

impl TimeUnderSun {
    /// Starts the count again from nought.
    pub fn reset(&mut self)
        ensures
            final(self).0 == 0,
    {
        self.0 = 0;
    }
}

/// How far the player has melted.
#[derive(Debug, Copy, Clone, Hash, PartialEq, Eq, Structural)]
pub enum MeltStage {
    Unmelted,
    Partial,
    Half,
    Mostly,
}

impl Default for MeltStage {
    fn default() -> (r: Self)
        ensures
            r == MeltStage::Unmelted,
    {
        MeltStage::Unmelted
    }
}

/// The size of the shape that is swept for a body of size `dimensions`.
pub open spec fn cast_dimensions_of(dimensions: FixedVec2) -> FixedVec2 {
    FixedVec2 {
        x: fixed_mul(dimensions.x as int, CAST_COLLIDER_SCALE as int) as i64,
        y: fixed_mul(dimensions.y as int, CAST_COLLIDER_SCALE as int) as i64,
    }
}

impl MeltStage {
    /// The place of the stage in the order of melting.
    pub open spec fn rank(self) -> nat {
        match self {
            MeltStage::Unmelted => 0,
            MeltStage::Partial => 1,
            MeltStage::Half => 2,
            MeltStage::Mostly => 3,
        }
    }

    /// The stage after this one; the last stage is followed by itself.
    pub open spec fn next(self) -> MeltStage {
        match self {
            MeltStage::Unmelted => MeltStage::Partial,
            MeltStage::Partial => MeltStage::Half,
            MeltStage::Half => MeltStage::Mostly,
            MeltStage::Mostly => MeltStage::Mostly,
        }
    }

    /// The stage reached from this one by melting `n` times.
    pub open spec fn advanced(self, n: nat) -> MeltStage
        decreases n,
    {
        if n == 0 {
            self
        } else {
            self.next().advanced((n - 1) as nat)
        }
    }

    /// The part of the full speed that the player can reach at this stage.
    pub open spec fn speed_multiplier(self) -> i64 {
        match self {
            MeltStage::Unmelted => 1_000_000,
            MeltStage::Partial => 800_000,
            MeltStage::Half => 700_000,
            MeltStage::Mostly => 600_000,
        }
    }

    /// The centre of the stage's picture in the sprite sheet.
    pub open spec fn tile_sprite_offset(self) -> FixedVec2 {
        match self {
            MeltStage::Unmelted => FixedVec2 { x: 16_000_000, y: 16_000_000 },
            MeltStage::Partial => FixedVec2 { x: 48_000_000, y: 16_000_000 },
            MeltStage::Half => FixedVec2 { x: 16_000_000, y: 48_000_000 },
            MeltStage::Mostly => FixedVec2 { x: 48_000_000, y: 48_000_000 },
        }
    }

    /// The size of the body at this stage: half the height of the upright
    /// part and the radius of the capsule.
    pub open spec fn collider_dimensions(self) -> FixedVec2 {
        match self {
            MeltStage::Unmelted => FixedVec2 { x: 4_500_000, y: 6_000_000 },
            MeltStage::Partial => FixedVec2 { x: 3_000_000, y: 6_000_000 },
            MeltStage::Half => FixedVec2 { x: 1_500_000, y: 6_000_000 },
            MeltStage::Mostly => FixedVec2 { x: 500_000, y: 6_000_000 },
        }
    }

    /// The part of the full speed that the player can reach at this stage:
    /// all of it, then eight, seven and six tenths.
    pub fn get_speed_multiplier(&self) -> (r: i64)
        ensures
            r == self.speed_multiplier(),
            0 < r <= 1_000_000,
    {
        match self {
            MeltStage::Unmelted => 1_000_000,
            MeltStage::Partial => 800_000,
            MeltStage::Half => 700_000,
            MeltStage::Mostly => 600_000,
        }
    }

    /// The centre of the stage's picture in the sprite sheet.
    pub fn get_tile_sprite_offset(&self) -> (r: FixedVec2)
        ensures
            r == self.tile_sprite_offset(),
    {
        match self {
            MeltStage::Unmelted => FixedVec2 { x: 16_000_000, y: 16_000_000 },
            MeltStage::Partial => FixedVec2 { x: 48_000_000, y: 16_000_000 },
            MeltStage::Half => FixedVec2 { x: 16_000_000, y: 48_000_000 },
            MeltStage::Mostly => FixedVec2 { x: 48_000_000, y: 48_000_000 },
        }
    }

    /// The size of the body at this stage: half the height of the upright
    /// part, which shrinks from stage to stage, and the radius of the
    /// capsule, which stays.
    pub fn get_collider_dimensions(&self) -> (r: FixedVec2)
        ensures
            r == self.collider_dimensions(),
    {
        match self {
            MeltStage::Unmelted => FixedVec2 { x: 4_500_000, y: 6_000_000 },
            MeltStage::Partial => FixedVec2 { x: 3_000_000, y: 6_000_000 },
            MeltStage::Half => FixedVec2 { x: 1_500_000, y: 6_000_000 },
            MeltStage::Mostly => FixedVec2 { x: 500_000, y: 6_000_000 },
        }
    }

    /// The size of the shape that is swept to feel for ground and walls, for
    /// a body of size `dimensions`.
    pub fn compute_cast_collider_dimensions(dimensions: FixedVec2) -> (r: FixedVec2)
        ensures
            r == cast_dimensions_of(dimensions),
    {
        FixedVec2 {
            x: scale_fixed(dimensions.x, CAST_COLLIDER_SCALE as u64),
            y: scale_fixed(dimensions.y, CAST_COLLIDER_SCALE as u64),
        }
    }

    /// The size of the shape that is swept to feel for ground and walls at
    /// this stage.
    pub fn get_cast_collider_dimensions(&self) -> (r: FixedVec2)
        ensures
            r == cast_dimensions_of(self.collider_dimensions()),
    {
        Self::compute_cast_collider_dimensions(self.get_collider_dimensions())
    }

    /// The stage after this one; the last stage is followed by itself.
    pub fn next_stage(&self) -> (r: MeltStage)
        ensures
            r == self.next(),
    {
        match self {
            MeltStage::Unmelted => MeltStage::Partial,
            MeltStage::Partial => MeltStage::Half,
            MeltStage::Half => MeltStage::Mostly,
            MeltStage::Mostly => MeltStage::Mostly,
        }
    }

    /// The further the player has melted, the slower it is and the
    /// narrower its body, while the radius of the body stays.
    pub proof fn lemma_stages_degrade(a: MeltStage, b: MeltStage)
        requires
            a.rank() < b.rank(),
        ensures
            a.speed_multiplier() > b.speed_multiplier(),
            a.collider_dimensions().x > b.collider_dimensions().x,
            a.collider_dimensions().y == b.collider_dimensions().y,
    {
    }

    /// Melting `n` times moves the stage on by `n` places, and no further
    /// than the last stage.
    pub proof fn lemma_advanced_rank(self, n: nat)
        ensures
            self.advanced(n).rank() == if self.rank() + n < 3 {
                self.rank() + n
            } else {
                3
            },
            self.advanced(n).rank() >= self.rank(),
        decreases n,
    {
        if n > 0 {
            self.next().lemma_advanced_rank((n - 1) as nat);
        }
    }
}

/// How far the ray that looks for shade reaches.
pub const SUN_RAY_LENGTH: i64 = 5_000_000_000;

/// The ray that looks for shade above the player.
#[derive(Debug, Copy, Clone, PartialEq, Eq, Structural)]
pub struct SunRay {
    /// The direction of the ray: straight up.
    pub direction: FixedVec2,
    /// How far the ray reaches.
    pub max_time_of_impact: i64,
    /// Whether a body that the ray starts in counts as met.
    pub solid: bool,
    /// Whether the player's own body is left out of what can be met.
    pub exclude_self: bool,
}

/// The ray that looks for shade: from the player's place straight up, past
/// the player's own body, in which it starts.
pub fn sun_ray() -> (r: SunRay)
    ensures
        r == (SunRay {
            direction: FixedVec2 { x: 0, y: 1_000_000 },
            max_time_of_impact: SUN_RAY_LENGTH,
            solid: true,
            exclude_self: true,
        }),
{
    SunRay {
        direction: FixedVec2 { x: 0, y: 1_000_000 },
        max_time_of_impact: SUN_RAY_LENGTH,
        solid: true,
        exclude_self: true,
    }
}

/// The time under the sun after a tick of length `delta`: nought in the
/// shade, else `delta` more than before. The count stops at the largest
/// number that it can hold.
pub open spec fn sun_time_after(before: u64, shaded: bool, delta: u64) -> u64 {
    if shaded {
        0
    } else if before + delta > u64::MAX {
        u64::MAX
    } else {
        (before + delta) as u64
    }
}

/// Whether the time under the sun is enough to melt by a stage.
pub open spec fn melts(time_under_sun: u64) -> bool {
    time_under_sun >= MELT_INTERVAL
}

/// Counts the time under the sun through a tick of length `delta`. `shaded`
/// says whether a ray cast upwards from the player, past its own body, hit
/// anything: under a roof the count starts again from nought.
pub fn increase_time_under_sun(time_under_sun: &mut TimeUnderSun, shaded: bool, delta: u64)
    ensures
        final(time_under_sun).0 == sun_time_after(old(time_under_sun).0, shaded, delta),
{
    if shaded {
        time_under_sun.reset();
    } else {
        time_under_sun.0 = time_under_sun.0.saturating_add(delta);
    }
}

/// Once the time under the sun has reached the melt interval, starts the
/// count again and asks for the stage after the player's. At the last stage
/// the stage asked for is the last stage again.
pub fn increase_melt_stage(player: &Player, time_under_sun: &mut TimeUnderSun) -> (r: Option<
    SetMeltStageEvent,
>)
    ensures
        melts(old(time_under_sun).0) ==> final(time_under_sun).0 == 0 && r == Some(
            SetMeltStageEvent(player.melt_stage.next()),
        ),
        !melts(old(time_under_sun).0) ==> *final(time_under_sun) == *old(time_under_sun)
            && r is None,
{
    if time_under_sun.0 >= MELT_INTERVAL {
        time_under_sun.reset();
        Some(SetMeltStageEvent(player.melt_stage.next_stage()))
    } else {
        None
    }
}

/// What the world has to take over when the player changes its melt stage.
#[derive(Debug, Copy, Clone, PartialEq, Eq, Structural)]
pub struct MeltStageChange {
    /// The new body, which replaces the old one.
    pub collider: FixedVec2,
    /// The part of the sprite sheet that is shown from now on.
    pub sprite: SpriteRect,
}

/// The player once it has taken the stage `stage`.
pub open spec fn with_melt_stage(player: Player, stage: MeltStage) -> Player {
    Player {
        collider: stage.collider_dimensions(),
        cast_collider: cast_dimensions_of(stage.collider_dimensions()),
        melt_stage: stage,
        ..player
    }
}

/// Takes the first pending request for a melt stage, and no other: the
/// player takes the stage, its body and its swept shape take the size of the
/// stage, and the picture changes to that of the stage. Without a request
/// nothing changes.
pub fn update_set_melt_stage(player: &mut Player, set_melt_stage: Option<SetMeltStageEvent>) -> (r:
    Option<MeltStageChange>)
    ensures
        set_melt_stage is None ==> r is None && *final(player) == *old(player),
        set_melt_stage is Some ==> {
            let stage = (set_melt_stage->0).0;
            &&& *final(player) == with_melt_stage(*old(player), stage)
            &&& r == Some(
                MeltStageChange {
                    collider: stage.collider_dimensions(),
                    sprite: sprite_rect_of(stage),
                },
            )
        },
{
    match set_melt_stage {
        None => None,
        Some(set_melt_stage) => {
            let collider_dimensions = set_melt_stage.0.get_collider_dimensions();
            let cast_collider_dimensions = MeltStage::compute_cast_collider_dimensions(
                collider_dimensions,
            );
            player.collider = collider_dimensions;
            player.melt_stage = set_melt_stage.0;
            player.cast_collider = cast_collider_dimensions;
            Some(
                MeltStageChange {
                    collider: collider_dimensions,
                    sprite: sprite_rect(set_melt_stage.0),
                },
            )
        },
    }
}

/// One tick of sun.
#[derive(Debug, Copy, Clone, PartialEq, Eq, Structural)]
pub struct SunTick {
    /// Whether it is day or night.
    pub day_night: DayNightState,
    /// Whether something lies above the player.
    pub shaded: bool,
    /// The length of the tick.
    pub delta: u64,
}

/// The melt stage and the time under the sun.
#[derive(Debug, Copy, Clone, PartialEq, Eq, Structural)]
pub struct MeltState {
    pub stage: MeltStage,
    pub time_under_sun: u64,
}

/// What a tick makes of the melt stage and of the time under the sun: at
/// night nothing; by day the time is counted, and where it has reached the
/// melt interval the count starts again and the stage moves on by one.
pub open spec fn melt_tick_of(before: MeltState, tick: SunTick) -> MeltState {
    if tick.day_night == DayNightState::Night {
        before
    } else {
        let counted = sun_time_after(before.time_under_sun, tick.shaded, tick.delta);
        if melts(counted) {
            MeltState { stage: before.stage.next(), time_under_sun: 0 }
        } else {
            MeltState { stage: before.stage, time_under_sun: counted }
        }
    }
}

/// What a run of ticks makes of the melt stage and of the time under the sun.
pub open spec fn melt_run_of(before: MeltState, ticks: Seq<SunTick>) -> MeltState
    decreases ticks.len(),
{
    if ticks.len() == 0 {
        before
    } else {
        melt_tick_of(melt_run_of(before, ticks.drop_last()), ticks.last())
    }
}

/// Melting through one tick: by day the time under the sun is counted, and
/// once it has reached the melt interval the player takes the next stage
/// with all that belongs to it; at night nothing melts and nothing is
/// counted.
pub fn melt_tick(player: &mut Player, time_under_sun: &mut TimeUnderSun, tick: SunTick) -> (r:
    Option<MeltStageChange>)
    ensures
        ({
            let before = MeltState {
                stage: old(player).melt_stage,
                time_under_sun: old(time_under_sun).0,
            };
            let after = melt_tick_of(before, tick);
            &&& final(time_under_sun).0 == after.time_under_sun
            &&& final(player).melt_stage == after.stage
            &&& r is Some <==> tick.day_night == DayNightState::Day && melts(
                sun_time_after(before.time_under_sun, tick.shaded, tick.delta),
            )
            &&& r is Some ==> *final(player) == with_melt_stage(*old(player), after.stage) && r
                == Some(
                MeltStageChange {
                    collider: after.stage.collider_dimensions(),
                    sprite: sprite_rect_of(after.stage),
                },
            )
            &&& r is None ==> *final(player) == *old(player)
        }),
{
    match tick.day_night {
        DayNightState::Night => None,
        DayNightState::Day => {
            increase_time_under_sun(time_under_sun, tick.shaded, tick.delta);
            let set_melt_stage = increase_melt_stage(player, time_under_sun);
            update_set_melt_stage(player, set_melt_stage)
        },
    }
}

/// Under the open sky the time under the sun never falls; in the shade it is
/// nought.
pub proof fn lemma_sun_time(before: u64, shaded: bool, delta: u64)
    ensures
        shaded ==> sun_time_after(before, shaded, delta) == 0,
        !shaded ==> sun_time_after(before, shaded, delta) >= before,
        !shaded && before + delta <= u64::MAX ==> sun_time_after(before, shaded, delta) == before
            + delta,
{
}

/// No tick takes the melt stage back.
pub proof fn lemma_melt_tick_monotonic(before: MeltState, tick: SunTick)
    ensures
        melt_tick_of(before, tick).stage.rank() >= before.stage.rank(),
        melt_tick_of(before, tick).stage == before.stage || melt_tick_of(before, tick).stage
            == before.stage.next(),
{
}

/// No run of ticks takes the melt stage back.
pub proof fn lemma_melt_run_monotonic(before: MeltState, ticks: Seq<SunTick>)
    ensures
        melt_run_of(before, ticks).stage.rank() >= before.stage.rank(),
    decreases ticks.len(),
{
    if ticks.len() > 0 {
        lemma_melt_run_monotonic(before, ticks.drop_last());
        lemma_melt_tick_monotonic(melt_run_of(before, ticks.drop_last()), ticks.last());
    }
}

/// A run of `n` ticks by day, each of which takes the time under the sun to
/// the melt interval, moves the stage on by `n` places, and no further than
/// the last stage.
pub proof fn lemma_melt_run_counts(before: MeltState, ticks: Seq<SunTick>)
    requires
        before.time_under_sun == 0,
        forall|i: int|
            0 <= i < ticks.len() ==> (#[trigger] ticks[i]).day_night == DayNightState::Day
                && !ticks[i].shaded && ticks[i].delta >= MELT_INTERVAL,
    ensures
        melt_run_of(before, ticks).stage == before.stage.advanced(ticks.len()),
        melt_run_of(before, ticks).time_under_sun == 0,
        melt_run_of(before, ticks).stage.rank() == if before.stage.rank() + ticks.len() < 3 {
            before.stage.rank() + ticks.len()
        } else {
            3
        },
    decreases ticks.len(),
{
    before.stage.lemma_advanced_rank(ticks.len());
    if ticks.len() > 0 {
        let head = ticks.drop_last();
        lemma_melt_run_counts(before, head);
        lemma_advanced_next(before.stage, head.len());
    }
}

/// Melting `n` times and once more is melting `n + 1` times.
pub proof fn lemma_advanced_next(stage: MeltStage, n: nat)
    ensures
        stage.advanced(n).next() == stage.advanced(n + 1),
    decreases n,
{
    if n > 0 {
        lemma_advanced_next(stage.next(), (n - 1) as nat);
        assert(stage.advanced(n + 1) == stage.next().advanced(n));
    } else {
        assert(stage.advanced(1) == stage.next().advanced(0));
    }
}

} // verus!
