//! The plain controller: on the ground the keys set the speed outright, and
//! in the air they can only work against it.

use crate::math::{clamped, fixed_mul, mul_fixed};
use crate::player::movement::{ControlInput, ShapeHit, JUMP_POWER};
use crate::player::{Player, Velocity};
use vstd::prelude::*;

verus! {

/// The speed along x that the keys give on the ground.
pub const PLAYER_MAX_SPEED: i64 = 60_000_000;

/// The rate at which a key held against the flight takes speed away.
pub const MID_AIR_SPEED_DEGRADATION: i64 = 100_000_000;

/// How far below the player's place the sweep for ground begins.
pub const GROUND_CAST_OFFSET: i64 = 200_000;

/// The speed that the keys for left and right ask for on the ground.
pub open spec fn desired_velocity(left: bool, right: bool) -> i64 {
    if left == right {
        0
    } else if right {
        PLAYER_MAX_SPEED
    } else {
        (-PLAYER_MAX_SPEED) as i64
    }
}

/// The speed that a key held against the flight takes away in a tick of
/// length `delta`.
pub open spec fn degradation(delta: u64) -> int {
    fixed_mul(MID_AIR_SPEED_DEGRADATION as int, delta as int)
}

/// The speed along x after a tick. On the ground the keys set it, and
/// without a key, or with both, it stays. In the air a player that flies to
/// the right is slowed by the key for left, and any other by the key for
/// right is pushed to the right; within what a speed can hold.
pub open spec fn moved_x(on_ground: bool, x: i64, input: ControlInput, delta: u64) -> int {
    if on_ground {
        if desired_velocity(input.left, input.right) != 0 {
            desired_velocity(input.left, input.right) as int
        } else {
            x as int
        }
    } else if x > 0 {
        if input.left {
            clamped(x - degradation(delta), i64::MIN as int, i64::MAX as int)
        } else {
            x as int
        }
    } else if input.right {
        clamped(x + degradation(delta), i64::MIN as int, i64::MAX as int)
    } else {
        x as int
    }
}

/// The speed upwards after a tick: that of a jump where the player stands
/// on the ground and the key for jumping went down, else as before.
pub open spec fn moved_y(on_ground: bool, y: i64, input: ControlInput) -> i64 {
    if on_ground && input.jump {
        JUMP_POWER
    } else {
        y
    }
}

/// Takes in what the sweep for ground met: the player stands on the ground
/// where the swept shape touched from the start, and is in the air where it
/// got some way. A sweep that met nothing leaves the player as it was.
pub fn check_player_on_ground(player: &mut Player, hit: Option<ShapeHit>)
    ensures
        *final(player) == (Player {
            on_ground: match hit {
                Some(shape_hit) => shape_hit.time_of_impact == 0,
                None => old(player).on_ground,
            },
            ..*old(player)
        }),
{
    if let Some(shape_hit) = hit {
        player.on_ground = shape_hit.time_of_impact == 0;
    }
}

/// Moves the player by the keys through a tick of length `delta`.
pub fn move_player(player: &Player, velocity: &mut Velocity, input: ControlInput, delta: u64)
    ensures
        final(velocity).x == moved_x(player.on_ground, old(velocity).x, input, delta),
        final(velocity).y == moved_y(player.on_ground, old(velocity).y, input),
{
    let mut desired_x_velocity: i64 = 0;
    if player.on_ground && input.jump {
        velocity.y = JUMP_POWER;
    }
    if player.on_ground {
        if input.left {
            desired_x_velocity = desired_x_velocity - PLAYER_MAX_SPEED;
        }
        if input.right {
            desired_x_velocity = desired_x_velocity + PLAYER_MAX_SPEED;
        }
        if desired_x_velocity != 0 {
            velocity.x = desired_x_velocity;
        }
    } else if velocity.x > 0 {
        if input.left {
            velocity.x = held(velocity.x as i128 - mul_fixed(MID_AIR_SPEED_DEGRADATION, delta));
        }
    } else if input.right {
        velocity.x = held(velocity.x as i128 + mul_fixed(MID_AIR_SPEED_DEGRADATION, delta));
    }
}

/// `value` within what a speed can hold.
fn held(value: i128) -> (r: i64)
    ensures
        r == clamped(value as int, i64::MIN as int, i64::MAX as int),
{
    if value < i64::MIN as i128 {
        i64::MIN
    } else if value > i64::MAX as i128 {
        i64::MAX
    } else {
        value as i64
    }
}

/// In the air no key makes the player faster in the direction in which it
/// flies to the right: a key can only take speed away from such a flight.
pub proof fn lemma_mid_air_only_brakes(x: i64, input: ControlInput, delta: u64)
    requires
        x > 0,
    ensures
        moved_x(false, x, input, delta) <= x,
{
    assert(fixed_mul(MID_AIR_SPEED_DEGRADATION as int, delta as int) >= 0) by {
        assert(100_000_000 * (delta as int) >= 0);
        assert((100_000_000 * (delta as int)) / 1_000_000 >= 0);
    }
}

} // verus!
