//! Death, the end of a level, and the way back to the spawn point.

use crate::day_night::{DayNightState, SetDayNightEvent};
use crate::levels::data::LevelData;
use crate::levels::LoadNextLevelEvent;
use crate::math::{tile_pos_to_world_pos, tile_to_world, FixedVec3};
use crate::player::melting::{MeltStage, TimeUnderSun};
use crate::player::{sprite_rect, sprite_rect_of, Player, SpriteRect, Velocity};
use vstd::prelude::*;

verus! {

/// The height below which the player is dead.
pub const LOWER_BOUND: i64 = -20_000_000;

/// The distance along x beyond which the level is finished.
pub const UPPER_BOUND: i64 = 320_000_000;

/// The player died.
#[derive(Debug, Copy, Clone, Default, PartialEq, Eq, Structural)]
pub struct PlayerDeathEvent;

/// The player reached the end of the level.
#[derive(Debug, Copy, Clone, Default, PartialEq, Eq, Structural)]
pub struct PlayerFinishLevelEvent;

/// The player is to be put back at the spawn point.
#[derive(Debug, Copy, Clone, Default, PartialEq, Eq, Structural)]
pub struct RespawnPlayerEvent;

/// What the place of the player gives rise to.
#[derive(Debug, Copy, Clone, PartialEq, Eq, Structural)]
pub struct OutOfBounds {
    pub player_death: Option<PlayerDeathEvent>,
    pub player_finish_level: Option<PlayerFinishLevelEvent>,
}

/// What a death or the end of a level gives rise to.
#[derive(Debug, Copy, Clone, PartialEq, Eq, Structural)]
pub struct RespawnResponse {
    pub respawn_player: Option<RespawnPlayerEvent>,
    pub set_day_night: Option<SetDayNightEvent>,
    pub load_next_level: Option<LoadNextLevelEvent>,
}

/// Nothing happened.
pub open spec fn no_response() -> RespawnResponse {
    RespawnResponse { respawn_player: None, set_day_night: None, load_next_level: None }
}

/// What a death gives rise to: back to the spawn point, by day.
pub open spec fn death_response() -> RespawnResponse {
    RespawnResponse {
        respawn_player: Some(RespawnPlayerEvent),
        set_day_night: Some(SetDayNightEvent(DayNightState::Day)),
        load_next_level: None,
    }
}

/// What the end of a level gives rise to. By day: back to the spawn
/// point of the same level, by night. By night: back to the spawn point, by
/// day, in the next level.
pub open spec fn finish_response(day_night_state: DayNightState) -> RespawnResponse {
    match day_night_state {
        DayNightState::Day => RespawnResponse {
            respawn_player: Some(RespawnPlayerEvent),
            set_day_night: Some(SetDayNightEvent(DayNightState::Night)),
            load_next_level: None,
        },
        DayNightState::Night => RespawnResponse {
            respawn_player: Some(RespawnPlayerEvent),
            set_day_night: Some(SetDayNightEvent(DayNightState::Day)),
            load_next_level: Some(LoadNextLevelEvent),
        },
    }
}

/// The player with its melt stage taken back to the first.
pub open spec fn unmelted(player: Player) -> Player {
    Player { melt_stage: MeltStage::Unmelted, ..player }
}

/// The player after the end of a level: by night its melt stage is taken
/// back to the first, by day it stays.
pub open spec fn finished(player: Player, day_night_state: DayNightState) -> Player {
    match day_night_state {
        DayNightState::Day => player,
        DayNightState::Night => unmelted(player),
    }
}

/// Where the player stands after it was put back at the spawn point of
/// `level`: at the centre of the spawn tile, at the depth that it had.
pub open spec fn spawn_translation(level: LevelData, translation: FixedVec3) -> FixedVec3 {
    FixedVec3 {
        x: tile_to_world(level.spawn_location.x) as i64,
        y: tile_to_world(level.spawn_location.y) as i64,
        z: translation.z,
    }
}

/// Whether the player is put back at the spawn point: on a request to do
/// so, where a level is in use.
pub open spec fn respawns(respawn: Option<RespawnPlayerEvent>, level_data: Option<&LevelData>) -> bool {
    respawn is Some && level_data is Some
}

/// The time under the sun once a request to put the player back was looked at.
pub open spec fn time_after_respawn(
    respawn: Option<RespawnPlayerEvent>,
    level_data: Option<&LevelData>,
    before: u64,
) -> u64 {
    if respawns(respawn, level_data) {
        0
    } else {
        before
    }
}

/// Looks at where the player is: below the lower bound it dies, beyond the
/// upper bound along x it has finished the level. Both can hold at once.
pub fn check_player_out_of_bounds(translation: FixedVec3) -> (r: OutOfBounds)
    ensures
        r.player_death is Some <==> translation.y < LOWER_BOUND,
        r.player_finish_level is Some <==> translation.x > UPPER_BOUND,
{
    let player_death = if translation.y < LOWER_BOUND {
        Some(PlayerDeathEvent)
    } else {
        None
    };
    let player_finish_level = if translation.x > UPPER_BOUND {
        Some(PlayerFinishLevelEvent)
    } else {
        None
    };
    OutOfBounds { player_death, player_finish_level }
}

/// Answers the first pending death, and no other: the player is to be put
/// back at the spawn point, the cycle goes to day, and the player's melt
/// stage is taken back to the first. Without a death nothing happens.
pub fn respawn_player_death(player: &mut Player, player_death: Option<PlayerDeathEvent>) -> (r:
    RespawnResponse)
    ensures
        player_death is Some ==> r == death_response() && *final(player) == unmelted(*old(player)),
        player_death is None ==> r == no_response() && *final(player) == *old(player),
{
    if player_death.is_some() {
        player.melt_stage = MeltStage::Unmelted;
        RespawnResponse {
            respawn_player: Some(RespawnPlayerEvent),
            set_day_night: Some(SetDayNightEvent(DayNightState::Day)),
            load_next_level: None,
        }
    } else {
        RespawnResponse { respawn_player: None, set_day_night: None, load_next_level: None }
    }
}

/// Answers the first pending end of a level, and no other. The player is to
/// be put back at the spawn point. By day the cycle goes to night and the
/// same level is played again; by night the cycle goes to day, the player's
/// melt stage is taken back to the first and the next level is asked for.
/// Without an end of a level nothing happens.
pub fn respawn_player_finish_level(
    player: &mut Player,
    player_finish_level: Option<PlayerFinishLevelEvent>,
    day_night_state: DayNightState,
) -> (r: RespawnResponse)
    ensures
        player_finish_level is Some ==> r == finish_response(day_night_state) && *final(player)
            == finished(*old(player), day_night_state),
        player_finish_level is None ==> r == no_response() && *final(player) == *old(player),
{
    if player_finish_level.is_some() {
        match day_night_state {
            DayNightState::Day => RespawnResponse {
                respawn_player: Some(RespawnPlayerEvent),
                set_day_night: Some(SetDayNightEvent(DayNightState::Night)),
                load_next_level: None,
            },
            DayNightState::Night => {
                player.melt_stage = MeltStage::Unmelted;
                RespawnResponse {
                    respawn_player: Some(RespawnPlayerEvent),
                    set_day_night: Some(SetDayNightEvent(DayNightState::Day)),
                    load_next_level: Some(LoadNextLevelEvent),
                }
            },
        }
    } else {
        RespawnResponse { respawn_player: None, set_day_night: None, load_next_level: None }
    }
}

/// Puts the player back at the spawn point on the first pending request to
/// do so, and on no other, where a level is in use: the body comes to rest,
/// the player stands at the centre of the level's spawn tile at the depth
/// that it had, the time under the sun starts from nought, and the picture
/// is that of the player's melt stage, which is handed back. Without a
/// request, or without a level, nothing changes.
pub fn respawn_player(
    translation: &mut FixedVec3,
    velocity: &mut Velocity,
    player: &Player,
    level_data: Option<&LevelData>,
    respawn: Option<RespawnPlayerEvent>,
    time_under_sun: &mut TimeUnderSun,
) -> (r: Option<SpriteRect>)
    ensures
        final(time_under_sun).0 == time_after_respawn(respawn, level_data, old(time_under_sun).0),
        respawns(respawn, level_data) ==> {
            &&& *final(velocity) == (Velocity { x: 0, y: 0 })
            &&& *final(translation) == spawn_translation(*level_data->0, *old(translation))
            &&& r == Some(sprite_rect_of(player.melt_stage))
        },
        !respawns(respawn, level_data) ==> {
            &&& *final(velocity) == *old(velocity)
            &&& *final(translation) == *old(translation)
            &&& r is None
        },
{
    if respawn.is_some() {
        if let Some(level_data) = level_data {
            velocity.x = 0;
            velocity.y = 0;
            *translation = tile_pos_to_world_pos(level_data.spawn_location, translation.z);
            time_under_sun.reset();
            return Some(sprite_rect(player.melt_stage));
        }
    }
    None
}

/// The key that sends the player back kills it: there is no other way back.
pub fn key_respawn(pressed: bool) -> (r: Option<PlayerDeathEvent>)
    ensures
        r is Some <==> pressed,
{
    if pressed {
        Some(PlayerDeathEvent)
    } else {
        None
    }
}

/// What one tick of the respawn machine brought about.
#[derive(Debug, Copy, Clone, PartialEq, Eq, Structural)]
pub struct RespawnTick {
    /// What the place of the player, and the key that sends it back, gave
    /// rise to.
    pub out_of_bounds: OutOfBounds,
    /// What the death, if there was one, gave rise to.
    pub death: RespawnResponse,
    /// What the end of the level, if it was reached, gave rise to.
    pub finish: RespawnResponse,
    /// The picture of the player, where it was put back at the spawn point.
    pub sprite: Option<SpriteRect>,
}

/// Whether the player dies in a tick: it is below the lower bound, or the
/// key that sends it back went down.
pub open spec fn dies(translation: FixedVec3, key: bool) -> bool {
    key || translation.y < LOWER_BOUND
}

/// Whether the player finishes the level in a tick.
pub open spec fn finishes(translation: FixedVec3) -> bool {
    translation.x > UPPER_BOUND
}

/// The player after a tick of the respawn machine.
pub open spec fn player_after_tick(
    player: Player,
    translation: FixedVec3,
    key: bool,
    day_night_state: DayNightState,
) -> Player {
    let after_death = if dies(translation, key) {
        unmelted(player)
    } else {
        player
    };
    if finishes(translation) {
        finished(after_death, day_night_state)
    } else {
        after_death
    }
}

/// One tick of the respawn machine, in its order: first the place of the
/// player is looked at, then a death and the end of the level are
/// answered, the death first, and last the player is put back at the spawn
/// point if either asked for it.
pub fn respawn_tick(
    translation: &mut FixedVec3,
    velocity: &mut Velocity,
    player: &mut Player,
    time_under_sun: &mut TimeUnderSun,
    level_data: Option<&LevelData>,
    day_night_state: DayNightState,
    key: bool,
) -> (r: RespawnTick)
    ensures
        r.out_of_bounds.player_death is Some <==> dies(*old(translation), key),
        r.out_of_bounds.player_finish_level is Some <==> finishes(*old(translation)),
        r.death == if dies(*old(translation), key) {
            death_response()
        } else {
            no_response()
        },
        r.finish == if finishes(*old(translation)) {
            finish_response(day_night_state)
        } else {
            no_response()
        },
        *final(player) == player_after_tick(*old(player), *old(translation), key, day_night_state),
        (dies(*old(translation), key) || finishes(*old(translation))) && level_data is Some ==> {
            &&& *final(velocity) == (Velocity { x: 0, y: 0 })
            &&& *final(translation) == spawn_translation(*level_data->0, *old(translation))
            &&& final(time_under_sun).0 == 0
            &&& r.sprite == Some(sprite_rect_of(final(player).melt_stage))
        },
        !(dies(*old(translation), key) || finishes(*old(translation))) || level_data is None ==> {
            &&& *final(velocity) == *old(velocity)
            &&& *final(translation) == *old(translation)
            &&& *final(time_under_sun) == *old(time_under_sun)
            &&& r.sprite is None
        },
{
    let mut out_of_bounds = check_player_out_of_bounds(*translation);
    if key_respawn(key).is_some() {
        out_of_bounds.player_death = Some(PlayerDeathEvent);
    }
    let death = respawn_player_death(player, out_of_bounds.player_death);
    let finish = respawn_player_finish_level(
        player,
        out_of_bounds.player_finish_level,
        day_night_state,
    );
    let respawn = if death.respawn_player.is_some() {
        death.respawn_player
    } else {
        finish.respawn_player
    };
    let sprite = respawn_player(translation, velocity, player, level_data, respawn, time_under_sun);
    RespawnTick { out_of_bounds, death, finish, sprite }
}

/// Whatever the melt stage and the time under the sun before: after a
/// death, and after the end of a level by night, the melt stage is the
/// first, and once the player is put back at the spawn point of the level
/// in use, as both ask, the time under the sun is nought.
pub proof fn lemma_respawn_resets(player: Player, level_data: &LevelData, time_under_sun: u64)
    ensures
        unmelted(player).melt_stage == MeltStage::Unmelted,
        finished(player, DayNightState::Night).melt_stage == MeltStage::Unmelted,
        time_after_respawn(death_response().respawn_player, Some(level_data), time_under_sun) == 0,
        time_after_respawn(
            finish_response(DayNightState::Night).respawn_player,
            Some(level_data),
            time_under_sun,
        ) == 0,
{
}

/// The end of a level by day leads to the night of the same level; the end
/// of a level by night leads to the day of the next.
pub proof fn lemma_finish_alternates(day_night_state: DayNightState)
    ensures
        finish_response(DayNightState::Day).set_day_night == Some(
            SetDayNightEvent(DayNightState::Night),
        ),
        finish_response(DayNightState::Day).load_next_level is None,
        finish_response(DayNightState::Night).set_day_night == Some(
            SetDayNightEvent(DayNightState::Day),
        ),
        finish_response(DayNightState::Night).load_next_level is Some,
        finish_response(day_night_state).respawn_player is Some,
{
}

} // verus!
