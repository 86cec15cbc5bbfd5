//! The camera that looks around a level while it is worked on.

use crate::math::{clamped, fixed_mul, mul_fixed, FixedVec2, FixedVec3};
use vstd::prelude::*;

verus! {

/// The speed at which the camera moves.
pub const CAMERA_MOVE_SPEED: i64 = 50_000_000;

/// How much of the world the camera shows during play: four tenths.
pub const PLAY_SCALE: i64 = 400_000;

/// The keys that move the camera.
#[derive(Debug, Copy, Clone, PartialEq, Eq, Structural)]
pub struct CameraKeys {
    pub up: bool,
    pub down: bool,
    pub left: bool,
    pub right: bool,
}

/// How far the camera moves in a tick of length `delta`, with the largest
/// number that can be held as the limit.
pub open spec fn camera_step(delta: u64) -> int {
    clamped(fixed_mul(CAMERA_MOVE_SPEED as int, delta as int), 0, i64::MAX as int)
}

/// How far a pair of opposite keys moves the camera along their axis.
pub open spec fn axis_move(forth: bool, back: bool, step: int) -> int {
    if forth == back {
        0
    } else if forth {
        step
    } else {
        -step
    }
}

/// Where the camera stands as play begins.
pub fn game_start_camera() -> (r: (FixedVec3, i64))
    ensures
        r.0 == (FixedVec3 { x: 152_000_000, y: 112_000_000, z: 0 }),
        r.1 == PLAY_SCALE,
{
    (FixedVec3 { x: 152_000_000, y: 112_000_000, z: 0 }, PLAY_SCALE)
}

/// How far the keys move the camera in a tick of length `delta`: at
/// [`CAMERA_MOVE_SPEED`] along each axis whose keys are not both held or
/// both free.
pub fn move_camera(keys: CameraKeys, delta: u64) -> (r: FixedVec2)
    ensures
        r.x == axis_move(keys.right, keys.left, camera_step(delta)),
        r.y == axis_move(keys.up, keys.down, camera_step(delta)),
{
    let wide: i128 = mul_fixed(CAMERA_MOVE_SPEED, delta);
    let delta_speed: i64 = if wide > i64::MAX as i128 {
        i64::MAX
    } else if wide < 0 {
        0
    } else {
        wide as i64
    };
    let mut translation = FixedVec2 { x: 0, y: 0 };
    if keys.up {
        translation.y = translation.y + delta_speed;
    }
    if keys.down {
        translation.y = translation.y - delta_speed;
    }
    if keys.left {
        translation.x = translation.x - delta_speed;
    }
    if keys.right {
        translation.x = translation.x + delta_speed;
    }
    translation
}

} // verus!
