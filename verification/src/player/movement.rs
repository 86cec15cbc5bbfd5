//! The movement controller: what the keys and the contacts with ground and
//! walls make of the player's speed.

use crate::math::{clamped, fixed_mul, mul_fixed, scale_fixed, FixedVec2};
use crate::player::melting::MeltStage;
use crate::player::{Player, Velocity};
use vstd::prelude::*;

verus! {

/// The speed along x that the player has at most before it has melted.
pub const PLAYER_MAX_VELOCITY: i64 = 80_000_000;

/// The acceleration of the player: it takes the player to
/// [`PLAYER_MAX_VELOCITY`] in a quarter of a second.
pub const ACCELERATION: i64 = 320_000_000;

/// The speed upwards that a jump gives.
pub const JUMP_POWER: i64 = 300_000_000;

/// How far below the player the ground may lie for the player to stand on it.
pub const MAX_TOI_GROUNDED: i64 = 1_100_000;

/// How far from the player a wall may stand for the player to push against it.
pub const MAX_TOI_ON_WALL: i64 = 2_500_000;

/// How far a shape is swept.
pub const MAX_TIME_OF_IMPACT: i64 = 32_000_000;

/// Where a shape is swept to.
#[derive(Debug, Copy, Clone, PartialEq, Eq, Structural)]
pub enum CastDirection {
    Down,
    Left,
    Right,
}

/// A sweep of a shape from the player's place, past the player's own body.
#[derive(Debug, Copy, Clone, PartialEq, Eq, Structural)]
pub struct ShapeCast {
    pub direction: CastDirection,
    /// The capsule that is swept.
    pub shape: FixedVec2,
    /// How far it is swept.
    pub max_time_of_impact: i64,
    /// Whether the player's own body is left out of what can be met.
    pub exclude_self: bool,
}

/// What a swept shape met first.
#[derive(Debug, Copy, Clone, PartialEq, Eq, Structural)]
pub struct ShapeHit {
    /// How far the shape got; nought where it touched from the start.
    pub time_of_impact: i64,
}

/// What the keys ask of the player in one tick.
#[derive(Debug, Copy, Clone, PartialEq, Eq, Structural)]
pub struct ControlInput {
    /// The key for left is held down.
    pub left: bool,
    /// The key for right is held down.
    pub right: bool,
    /// A key for jumping went down in this tick.
    pub jump: bool,
}

/// Whether a sweep downwards found ground to stand on: near or touching.
pub open spec fn grounded(hit: Option<ShapeHit>) -> bool {
    hit is Some && hit->0.time_of_impact <= MAX_TOI_GROUNDED
}

/// Whether a sweep sideways found a wall to push against: near, but not
/// touching from the start, which is an overlap that the physics engine has
/// yet to undo and no wall in the way.
pub open spec fn walled(hit: Option<ShapeHit>) -> bool {
    hit is Some && hit->0.time_of_impact != 0 && hit->0.time_of_impact <= MAX_TOI_ON_WALL
}

/// The acceleration that the keys for left and right ask for.
pub open spec fn asked_acceleration(left: bool, right: bool) -> i64 {
    if left == right {
        0
    } else if right {
        ACCELERATION
    } else {
        (-ACCELERATION) as i64
    }
}

/// The speed along x that the player has at most at `stage`.
pub open spec fn max_velocity(stage: MeltStage) -> int {
    fixed_mul(PLAYER_MAX_VELOCITY as int, stage.speed_multiplier() as int)
}

/// The speed after a tick of length `delta` under the acceleration
/// `acceleration`, held to the most that the player can have at `stage`.
pub open spec fn integrated_velocity(
    velocity: i64,
    acceleration: i64,
    delta: u64,
    stage: MeltStage,
) -> int {
    clamped(
        velocity + fixed_mul(acceleration as int, delta as int),
        -max_velocity(stage),
        max_velocity(stage),
    )
}

/// The direction in which a wall would be in the player's way.
pub open spec fn wall_direction(player: Player) -> CastDirection {
    if player.x_acceleration > 0 {
        CastDirection::Right
    } else {
        CastDirection::Left
    }
}

/// The player after the sweep for ground came back with `hit`.
pub open spec fn ground_checked(player: Player, hit: Option<ShapeHit>) -> Player {
    Player { on_ground: grounded(hit), ..player }
}

/// The player after the keys for left and right were read.
pub open spec fn moved(player: Player, left: bool, right: bool) -> Player {
    Player { x_acceleration: asked_acceleration(left, right), ..player }
}

/// Whether the player jumps: it stands on the ground, and the key for
/// jumping went down in this tick.
pub open spec fn jump_applied(on_ground: bool, jump: bool) -> bool {
    on_ground && jump
}

/// The speed of the body after the key for jumping was read.
pub open spec fn jumped(player: Player, velocity: Velocity, jump: bool) -> Velocity {
    if jump_applied(player.on_ground, jump) {
        Velocity { x: velocity.x, y: JUMP_POWER }
    } else {
        velocity
    }
}

/// The player after the sweep for a wall came back with `hit`.
pub open spec fn wall_fixed(player: Player, hit: Option<ShapeHit>) -> Player {
    Player {
        on_wall: walled(hit),
        x_acceleration: if walled(hit) {
            0
        } else {
            player.x_acceleration
        },
        ..player
    }
}

/// The player after its acceleration was applied for a tick of length
/// `delta`, the body having the speed `velocity`.
pub open spec fn accelerated_player(player: Player, velocity: Velocity, delta: u64) -> Player {
    Player {
        x_velocity: if player.x_acceleration != 0 {
            integrated_velocity(player.x_velocity, player.x_acceleration, delta, player.melt_stage)
                as i64
        } else {
            velocity.x
        },
        ..player
    }
}

/// The speed of the body after the player's acceleration was applied.
pub open spec fn accelerated_velocity(player: Player, velocity: Velocity, delta: u64) -> Velocity {
    Velocity { x: accelerated_player(player, velocity, delta).x_velocity, y: velocity.y }
}

/// A shape that touches from the start of its sweep has found ground, and
/// has found no wall.
pub proof fn lemma_touching_is_ground_not_wall()
    ensures
        grounded(Some(ShapeHit { time_of_impact: 0 })),
        !walled(Some(ShapeHit { time_of_impact: 0 })),
        !grounded(None),
        !walled(None),
{
}

/// The most that the player's speed along x can be lies between nought and
/// the full speed, whatever the stage.
pub proof fn lemma_max_velocity_bounds(stage: MeltStage)
    ensures
        0 < max_velocity(stage) <= PLAYER_MAX_VELOCITY,
        max_velocity(stage) * 1_000_000 == PLAYER_MAX_VELOCITY * stage.speed_multiplier(),
{
    assert(80_000_000int * 1_000_000 / 1_000_000 == 80_000_000);
    assert(80_000_000int * 800_000 / 1_000_000 == 64_000_000);
    assert(80_000_000int * 700_000 / 1_000_000 == 56_000_000);
    assert(80_000_000int * 600_000 / 1_000_000 == 48_000_000);
}

/// After a tick in which the player's speed is changed by its acceleration,
/// the speed is no more, either way, than the full speed times the speed
/// multiplier of the player's melt stage.
pub proof fn lemma_speed_limit(velocity: i64, acceleration: i64, delta: u64, stage: MeltStage)
    ensures
        -max_velocity(stage) <= integrated_velocity(velocity, acceleration, delta, stage)
            <= max_velocity(stage),
        max_velocity(stage) * 1_000_000 == PLAYER_MAX_VELOCITY * stage.speed_multiplier(),
{
    lemma_max_velocity_bounds(stage);
}

/// The sweep that feels for ground: the player's swept shape, downwards.
pub fn ground_cast(player: &Player) -> (r: ShapeCast)
    ensures
        r == (ShapeCast {
            direction: CastDirection::Down,
            shape: player.cast_collider,
            max_time_of_impact: MAX_TIME_OF_IMPACT,
            exclude_self: true,
        }),
{
    ShapeCast {
        direction: CastDirection::Down,
        shape: player.cast_collider,
        max_time_of_impact: MAX_TIME_OF_IMPACT,
        exclude_self: true,
    }
}

/// Takes in what the sweep for ground met. The player stands on the ground
/// where the sweep met something no further away than
/// [`MAX_TOI_GROUNDED`], and is in the air where it met nothing or
/// something further away.
pub fn check_player_on_ground(player: &mut Player, hit: Option<ShapeHit>)
    ensures
        *final(player) == ground_checked(*old(player), hit),
{
    player.on_ground = match hit {
        Some(shape_hit) => shape_hit.time_of_impact <= MAX_TOI_GROUNDED,
        None => false,
    };
}

/// Reads the keys for left and right into the acceleration that the player
/// asks for: the same size either way, and none where both keys or neither
/// are held.
pub fn player_move(player: &mut Player, left: bool, right: bool)
    ensures
        *final(player) == moved(*old(player), left, right),
{
    let mut desired_x_acceleration: i64 = 0;
    if left {
        desired_x_acceleration = desired_x_acceleration - ACCELERATION;
    }
    if right {
        desired_x_acceleration = desired_x_acceleration + ACCELERATION;
    }
    player.x_acceleration = desired_x_acceleration;
}

/// Reads the key for jumping: where the player stands on the ground and the
/// key went down in this tick, the body's speed upwards becomes
/// [`JUMP_POWER`]. A key that is merely held down does nothing.
pub fn player_jump(player: &Player, velocity: &mut Velocity, jump: bool)
    ensures
        *final(velocity) == jumped(*player, *old(velocity), jump),
{
    if player.on_ground && jump {
        velocity.y = JUMP_POWER;
    }
}

/// The sweep that feels for a wall: the player's swept shape, to the side
/// that the player accelerates to, and to the left where it does not
/// accelerate.
pub fn wall_cast(player: &Player) -> (r: ShapeCast)
    ensures
        r == (ShapeCast {
            direction: wall_direction(*player),
            shape: player.cast_collider,
            max_time_of_impact: MAX_TIME_OF_IMPACT,
            exclude_self: true,
        }),
{
    let direction = if player.x_acceleration > 0 {
        CastDirection::Right
    } else {
        CastDirection::Left
    };
    ShapeCast {
        direction,
        shape: player.cast_collider,
        max_time_of_impact: MAX_TIME_OF_IMPACT,
        exclude_self: true,
    }
}

/// Takes in what the sweep for a wall met. The player pushes against a wall
/// where the sweep met something no further away than [`MAX_TOI_ON_WALL`]
/// but not touching from the start; then it does not accelerate in this
/// tick.
pub fn fix_wall_velocity(player: &mut Player, hit: Option<ShapeHit>)
    ensures
        *final(player) == wall_fixed(*old(player), hit),
{
    player.on_wall = match hit {
        Some(shape_hit) => {
            if shape_hit.time_of_impact == 0 {
                false
            } else {
                shape_hit.time_of_impact <= MAX_TOI_ON_WALL
            }
        },
        None => false,
    };
    if player.on_wall {
        player.x_acceleration = 0;
    }
}

/// Applies the player's acceleration for a tick of length `delta`. Where the
/// player accelerates, its speed along x changes by acceleration times
/// `delta`, is held to the most that its melt stage allows, and becomes the
/// speed of the body. Where it does not, the speed of the body becomes the
/// player's speed, so that what the physics engine did to it is taken over.
pub fn apply_acceleration(player: &mut Player, velocity: &mut Velocity, delta: u64)
    ensures
        *final(player) == accelerated_player(*old(player), *old(velocity), delta),
        *final(velocity) == accelerated_velocity(*old(player), *old(velocity), delta),
        old(player).x_acceleration != 0 ==> {
            let limit = max_velocity(old(player).melt_stage);
            -limit <= final(player).x_velocity <= limit
        },
{
    if player.x_acceleration != 0 {
        proof {
            lemma_max_velocity_bounds(player.melt_stage);
        }
        let gain: i128 = mul_fixed(player.x_acceleration, delta);
        let max_velocity: i64 = scale_fixed(
            PLAYER_MAX_VELOCITY,
            player.melt_stage.get_speed_multiplier() as u64,
        );
        let sum: i128 = player.x_velocity as i128 + gain;
        let held: i64 = if sum < -(max_velocity as i128) {
            -max_velocity
        } else if sum > max_velocity as i128 {
            max_velocity
        } else {
            sum as i64
        };
        player.x_velocity = held;
        velocity.x = held;
    } else {
        player.x_velocity = velocity.x;
    }
}

/// The first half of a tick of movement, in its order: the contact with the
/// ground is taken in, then the keys are read. What is handed back is the
/// sweep for a wall that the second half needs the answer to.
pub fn control_player(
    player: &mut Player,
    velocity: &mut Velocity,
    ground_hit: Option<ShapeHit>,
    input: ControlInput,
) -> (r: ShapeCast)
    ensures
        *final(player) == moved(ground_checked(*old(player), ground_hit), input.left, input.right),
        *final(velocity) == jumped(
            ground_checked(*old(player), ground_hit),
            *old(velocity),
            input.jump,
        ),
        r == (ShapeCast {
            direction: wall_direction(*final(player)),
            shape: old(player).cast_collider,
            max_time_of_impact: MAX_TIME_OF_IMPACT,
            exclude_self: true,
        }),
{
    check_player_on_ground(player, ground_hit);
    player_move(player, input.left, input.right);
    player_jump(player, velocity, input.jump);
    wall_cast(player)
}

/// The second half of a tick of movement, in its order: the contact with a
/// wall is taken in, then the acceleration is applied.
pub fn integrate_player(
    player: &mut Player,
    velocity: &mut Velocity,
    wall_hit: Option<ShapeHit>,
    delta: u64,
)
    ensures
        *final(player) == accelerated_player(
            wall_fixed(*old(player), wall_hit),
            *old(velocity),
            delta,
        ),
        *final(velocity) == accelerated_velocity(
            wall_fixed(*old(player), wall_hit),
            *old(velocity),
            delta,
        ),
{
    fix_wall_velocity(player, wall_hit);
    apply_acceleration(player, velocity, delta);
}

/// One tick as the key for jumping sees it.
#[derive(Debug, Copy, Clone, PartialEq, Eq, Structural)]
pub struct JumpTick {
    /// Whether the player stands on the ground.
    pub on_ground: bool,
    /// Whether the key is down.
    pub held: bool,
}

/// Whether the key went down in tick `i`: it is down, and was not in the
/// tick before.
pub open spec fn pressed_in(ticks: Seq<JumpTick>, i: int) -> bool {
    ticks[i].held && (i == 0 || !ticks[i - 1].held)
}

/// Whether the player jumps in tick `i`.
pub open spec fn jumps_in(ticks: Seq<JumpTick>, i: int) -> bool {
    jump_applied(ticks[i].on_ground, pressed_in(ticks, i))
}

/// The number of the first `n` ticks in which the key went down.
pub open spec fn presses(ticks: Seq<JumpTick>, n: int) -> nat
    decreases n,
{
    if n <= 0 {
        0
    } else {
        presses(ticks, n - 1) + if pressed_in(ticks, n - 1) {
            1nat
        } else {
            0nat
        }
    }
}

/// The number of the first `n` ticks in which the player jumps.
pub open spec fn jumps(ticks: Seq<JumpTick>, n: int) -> nat
    decreases n,
{
    if n <= 0 {
        0
    } else {
        jumps(ticks, n - 1) + if jumps_in(ticks, n - 1) {
            1nat
        } else {
            0nat
        }
    }
}

/// The player jumps no more often than the key goes down.
pub proof fn lemma_jumps_at_most_presses(ticks: Seq<JumpTick>, n: int)
    requires
        0 <= n <= ticks.len(),
    ensures
        jumps(ticks, n) <= presses(ticks, n),
    decreases n,
{
    if n > 0 {
        lemma_jumps_at_most_presses(ticks, n - 1);
    }
}

/// While the key stays down, from tick `from` on to tick `to`, the player
/// jumps at most once, and then in the first of these ticks.
pub proof fn lemma_one_jump_while_held(ticks: Seq<JumpTick>, from: int, to: int, i: int)
    requires
        0 <= from < i <= to < ticks.len(),
        forall|k: int| from <= k <= to ==> (#[trigger] ticks[k]).held,
    ensures
        !jumps_in(ticks, i),
{
    assert(ticks[i - 1].held);
}

/// The speed of the body changes through the key for jumping only in a tick
/// in which the key went down.
pub proof fn lemma_no_jump_without_press(player: Player, velocity: Velocity)
    ensures
        jumped(player, velocity, false) == velocity,
{
}

} // verus!
