//! The player: what is tracked of it from tick to tick, and how it starts.

use crate::math::FixedVec2;
use crate::player::melting::{cast_dimensions_of, MeltStage};
use vstd::prelude::*;

pub mod direct;
pub mod melting;
pub mod movement;
pub mod respawn;

verus! {

/// How much of the body's size the shape has that is swept to feel for
/// ground and walls: nine tenths.
pub const CAST_COLLIDER_SCALE: i64 = 900_000;

/// Half the side of the square that is cut out of the sprite sheet.
pub const SPRITE_HALF_SIZE: i64 = 16_000_000;

/// What is tracked of the player from tick to tick.
#[derive(Debug, Copy, Clone, PartialEq, Eq, Structural)]
pub struct Player {
    /// Whether the player stands on something.
    pub on_ground: bool,
    /// Whether the player pushes against a wall.
    pub on_wall: bool,
    /// The body: half the height of the upright part and the radius of the
    /// capsule.
    pub collider: FixedVec2,
    /// The shape that is swept to feel for ground and walls.
    pub cast_collider: FixedVec2,
    /// How far the player has melted.
    pub melt_stage: MeltStage,
    /// The acceleration along x that the keys ask for.
    pub x_acceleration: i64,
    /// The speed along x that the player is meant to have.
    pub x_velocity: i64,
}

/// The speed of a body in the physics engine.
#[derive(Debug, Copy, Clone, PartialEq, Eq, Structural)]
pub struct Velocity {
    pub x: i64,
    pub y: i64,
}

/// The part of the sprite sheet that is shown.
#[derive(Debug, Copy, Clone, PartialEq, Eq, Structural)]
pub struct SpriteRect {
    pub center: FixedVec2,
    pub half_size: FixedVec2,
}

/// The square of the sprite sheet that shows the player at `stage`.
pub open spec fn sprite_rect_of(stage: MeltStage) -> SpriteRect {
    SpriteRect {
        center: stage.tile_sprite_offset(),
        half_size: FixedVec2 { x: SPRITE_HALF_SIZE, y: SPRITE_HALF_SIZE },
    }
}

/// The player as the game starts: in the air, at rest, not melted.
pub open spec fn initial_player() -> Player {
    Player {
        on_ground: false,
        on_wall: false,
        collider: MeltStage::Unmelted.collider_dimensions(),
        cast_collider: cast_dimensions_of(MeltStage::Unmelted.collider_dimensions()),
        melt_stage: MeltStage::Unmelted,
        x_acceleration: 0,
        x_velocity: 0,
    }
}

/// What the start of the game puts into the world for the player.
#[derive(Debug, Copy, Clone, PartialEq, Eq, Structural)]
pub struct PlayerSpawn {
    pub player: Player,
    pub velocity: Velocity,
    pub sprite: SpriteRect,
}

/// The square of the sprite sheet that shows the player at `stage`.
pub fn sprite_rect(stage: MeltStage) -> (r: SpriteRect)
    ensures
        r == sprite_rect_of(stage),
{
    SpriteRect {
        center: stage.get_tile_sprite_offset(),
        half_size: FixedVec2 { x: SPRITE_HALF_SIZE, y: SPRITE_HALF_SIZE },
    }
}

/// Creates the player: in the air, at rest and not melted, with the body and
/// the picture of that stage.
pub fn spawn_player() -> (r: PlayerSpawn)
    ensures
        r.player == initial_player(),
        r.velocity == (Velocity { x: 0, y: 0 }),
        r.sprite == sprite_rect_of(MeltStage::Unmelted),
{
    let melt_stage = MeltStage::Unmelted;
    let collider_dimensions = melt_stage.get_collider_dimensions();
    let cast_collider_dimensions = melt_stage.get_cast_collider_dimensions();
    let player = Player {
        on_ground: false,
        on_wall: false,
        collider: collider_dimensions,
        cast_collider: cast_collider_dimensions,
        melt_stage,
        x_acceleration: 0,
        x_velocity: 0,
    };
    PlayerSpawn { player, velocity: Velocity { x: 0, y: 0 }, sprite: sprite_rect(melt_stage) }
}

} // verus!
