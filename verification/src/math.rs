//! Fixed-point quantities and the change between tile and world coordinates.

use crate::levels::data::LocationData;
use crate::levels::{HALF_TILE_SIZE, TILE_SIZE};
use vstd::prelude::*;

verus! {

/// One world unit, or one second, in the whole millionths that lengths,
/// speeds and times are held in.
pub const UNIT: i64 = 1_000_000;

/// A point or an extent in the plane.
#[derive(Debug, Copy, Clone, PartialEq, Eq, Structural)]
pub struct FixedVec2 {
    pub x: i64,
    pub y: i64,
}

/// A point in the plane with its depth.
#[derive(Debug, Copy, Clone, PartialEq, Eq, Structural)]
pub struct FixedVec3 {
    pub x: i64,
    pub y: i64,
    pub z: i64,
}

/// `n / d` rounded towards zero.
pub open spec fn truncated_div(n: int, d: int) -> int {
    if n >= 0 {
        n / d
    } else {
        -((-n) / d)
    }
}

/// The product of two fixed-point quantities, rounded towards zero.
pub open spec fn fixed_mul(a: int, b: int) -> int {
    truncated_div(a * b, UNIT as int)
}

/// `value` held to the range from `low` to `high`.
pub open spec fn clamped(value: int, low: int, high: int) -> int {
    if value < low {
        low
    } else if value > high {
        high
    } else {
        value
    }
}

/// The product of two fixed-point quantities, rounded towards zero.
pub fn mul_fixed(a: i64, b: u64) -> (r: i128)
    ensures
        r == fixed_mul(a as int, b as int),
        -0x1000_0000_0000_0000_0000_0000_0000 <= r <= 0x1000_0000_0000_0000_0000_0000_0000,
{
    let wide_a: i128 = a as i128;
    let wide_b: i128 = b as i128;
    assert(-0x7fff_ffff_ffff_ffff_ffff_ffff_ffff_ffff <= wide_a * wide_b
        <= 0x7fff_ffff_ffff_ffff_ffff_ffff_ffff_ffff) by (nonlinear_arith)
        requires
            -0x8000_0000_0000_0000 <= wide_a <= 0x7fff_ffff_ffff_ffff,
            0 <= wide_b <= 0xffff_ffff_ffff_ffff,
    ;
    let product: i128 = wide_a * wide_b;
    if product >= 0 {
        product / (UNIT as i128)
    } else {
        -((-product) / (UNIT as i128))
    }
}

/// Scaling by a factor of at most one brings a quantity no further from
/// nought than it was.
pub proof fn lemma_scale_within(value: i64, factor: u64)
    requires
        factor <= UNIT,
    ensures
        i64::MIN <= fixed_mul(value as int, factor as int) <= i64::MAX,
        value >= 0 ==> 0 <= fixed_mul(value as int, factor as int) <= value,
        value <= 0 ==> value <= fixed_mul(value as int, factor as int) <= 0,
{
    let v = value as int;
    let f = factor as int;
    if v >= 0 {
        assert(0 <= v * f <= v * 1_000_000) by (nonlinear_arith)
            requires
                v >= 0,
                0 <= f <= 1_000_000,
        ;
    } else {
        assert(v * 1_000_000 <= v * f <= 0) by (nonlinear_arith)
            requires
                v < 0,
                0 <= f <= 1_000_000,
        ;
    }
}

/// A fixed-point quantity times a factor, rounded towards zero and held to
/// what a quantity can be.
pub fn scale_fixed(value: i64, factor: u64) -> (r: i64)
    ensures
        r == clamped(fixed_mul(value as int, factor as int), i64::MIN as int, i64::MAX as int),
        factor <= UNIT ==> r == fixed_mul(value as int, factor as int),
{
    let wide: i128 = mul_fixed(value, factor);
    proof {
        if factor <= UNIT {
            lemma_scale_within(value, factor);
        }
    }
    if wide < i64::MIN as i128 {
        i64::MIN
    } else if wide > i64::MAX as i128 {
        i64::MAX
    } else {
        wide as i64
    }
}

/// The world coordinate of the centre of the tile column or row `t`.
pub open spec fn tile_to_world(t: u32) -> int {
    t * TILE_SIZE
}

/// The tile column or row whose tile holds the world coordinate `p`; a
/// coordinate left of or below the grid belongs to column or row 0, one
/// beyond the last column or row to the last.
pub open spec fn world_to_tile(p: i64) -> int {
    if p + HALF_TILE_SIZE < 0 {
        0
    } else if (p + HALF_TILE_SIZE) / (TILE_SIZE as int) > u32::MAX {
        u32::MAX as int
    } else {
        (p + HALF_TILE_SIZE) / (TILE_SIZE as int)
    }
}

fn tile_coordinate_to_world(t: u32) -> (p: i64)
    ensures
        p == tile_to_world(t),
{
    let wide: i64 = t as i64;
    wide * TILE_SIZE
}

fn world_coordinate_to_tile(p: i64) -> (t: u32)
    ensures
        t == world_to_tile(p),
{
    let shifted: i128 = p as i128 + HALF_TILE_SIZE as i128;
    if shifted < 0 {
        0
    } else {
        let q: i128 = shifted / (TILE_SIZE as i128);
        if q > u32::MAX as i128 {
            u32::MAX
        } else {
            q as u32
        }
    }
}

/// Where the tile at `tile_pos` stands in the world, at depth `z_index`.
pub fn tile_pos_to_world_pos(tile_pos: LocationData, z_index: i64) -> (r: FixedVec3)
    ensures
        r.x == tile_to_world(tile_pos.x),
        r.y == tile_to_world(tile_pos.y),
        r.z == z_index,
{
    let flat = tile_pos_to_world_pos_2d(tile_pos);
    FixedVec3 { x: flat.x, y: flat.y, z: z_index }
}

/// Where the tile at `tile_pos` stands in the plane.
pub fn tile_pos_to_world_pos_2d(tile_pos: LocationData) -> (r: FixedVec2)
    ensures
        r.x == tile_to_world(tile_pos.x),
        r.y == tile_to_world(tile_pos.y),
{
    FixedVec2 { x: tile_coordinate_to_world(tile_pos.x), y: tile_coordinate_to_world(tile_pos.y) }
}

/// The tile that holds the point `world_pos`.
pub fn world_pos_to_tile_pos(world_pos: FixedVec3) -> (r: LocationData)
    ensures
        r.x == world_to_tile(world_pos.x),
        r.y == world_to_tile(world_pos.y),
{
    LocationData {
        x: world_coordinate_to_tile(world_pos.x),
        y: world_coordinate_to_tile(world_pos.y),
    }
}

/// Every point less than half a tile away from a tile's centre, on either
/// axis, belongs to that tile.
pub proof fn lemma_tile_of_world_pos(t: u32, offset: i64)
    requires
        -HALF_TILE_SIZE <= offset < HALF_TILE_SIZE,
    ensures
        world_to_tile((tile_to_world(t) + offset) as i64) == t,
{
    let p = tile_to_world(t) + offset;
    assert(p + HALF_TILE_SIZE == t * 16_000_000 + (offset + 8_000_000));
    assert((t * 16_000_000 + (offset + 8_000_000)) / 16_000_000 == t) by (nonlinear_arith)
        requires
            0 <= offset + 8_000_000 < 16_000_000,
            t >= 0,
    ;
}

} // verus!
