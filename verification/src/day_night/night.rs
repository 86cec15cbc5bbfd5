//! The shadows that the tiles of a level cast at night.

use crate::levels::data::{LocationData, TileTypeData};
use crate::levels::{LevelDataMap, TileLevelLoadedEvent, TILE_MAP_SIZE, TILE_SIZE};
use crate::math::{tile_pos_to_world_pos_2d, tile_to_world, FixedVec2};
use vstd::prelude::*;

verus! {

/// How dark a shadow is: four tenths.
pub const SHADOW_ALPHA: i64 = 400_000;

/// The shadow below one tile: the free cells from right below the tile down
/// to the next tile in its column, or to the bottom row.
#[derive(Debug, Copy, Clone, PartialEq, Eq, Structural)]
pub struct Shadow {
    /// The topmost cell in shadow.
    pub start_pos: LocationData,
    /// The lowest cell in shadow.
    pub end_pos: LocationData,
    /// The centre of the shadow in the world.
    pub midpoint: FixedVec2,
    /// The width and the height of the shadow in the world.
    pub size: FixedVec2,
}

/// Whether a tile lies in column `x` and row `y`.
pub open spec fn occupied(tiles: Map<(u32, u32), TileTypeData>, x: u32, y: int) -> bool {
    0 <= y <= u32::MAX && tiles.dom().contains((x, y as u32))
}

/// The number of free cells in column `x` right below row `y`, down to the
/// next tile or to the bottom row.
pub open spec fn shadow_len(tiles: Map<(u32, u32), TileTypeData>, x: u32, y: int) -> nat
    decreases y,
{
    if y <= 0 || occupied(tiles, x, y - 1) {
        0
    } else {
        1 + shadow_len(tiles, x, y - 1)
    }
}

/// Whether the cell in column `x` and row `y` holds a tile that casts a shadow.
pub open spec fn casts_shadow(tiles: Map<(u32, u32), TileTypeData>, x: u32, y: int) -> bool {
    occupied(tiles, x, y) && shadow_len(tiles, x, y) > 0
}

/// The shadow of the tile in column `x` and row `y`.
pub open spec fn shadow_of(tiles: Map<(u32, u32), TileTypeData>, x: u32, y: int) -> Shadow {
    let len = shadow_len(tiles, x, y);
    Shadow {
        start_pos: LocationData { x, y: (y - 1) as u32 },
        end_pos: LocationData { x, y: (y - len) as u32 },
        midpoint: FixedVec2 {
            x: tile_to_world(x) as i64,
            y: ((tile_to_world((y - 1) as u32) + tile_to_world((y - len) as u32)) / 2) as i64,
        },
        size: FixedVec2 { x: TILE_SIZE, y: (len * TILE_SIZE) as i64 },
    }
}

/// The shadows of the tiles of column `x` in the rows from 1 up to, and
/// without, `rows`, from the bottom up. The bottom row is out of view and
/// casts none.
pub open spec fn column_shadows(tiles: Map<(u32, u32), TileTypeData>, x: u32, rows: int) -> Seq<
    Shadow,
>
    decreases rows,
{
    if rows <= 1 {
        Seq::empty()
    } else if casts_shadow(tiles, x, rows - 1) {
        column_shadows(tiles, x, rows - 1).push(shadow_of(tiles, x, rows - 1))
    } else {
        column_shadows(tiles, x, rows - 1)
    }
}

/// The shadows of the tiles in the first `columns` columns of the part of
/// the grid that is in view, column by column.
pub open spec fn grid_shadows(tiles: Map<(u32, u32), TileTypeData>, columns: int) -> Seq<Shadow>
    decreases columns,
{
    if columns <= 0 {
        Seq::empty()
    } else {
        grid_shadows(tiles, columns - 1) + column_shadows(
            tiles,
            (columns - 1) as u32,
            TILE_MAP_SIZE as int,
        )
    }
}

/// The number of free cells right below the cell in column `x` and row `y`.
fn measure_shadow(tile_map: &LevelDataMap, x: u32, y: u32) -> (len: u32)
    ensures
        len == shadow_len(tile_map.entries(), x, y as int),
        len <= y,
{
    let mut free: u32 = 0;
    let mut cast_y: u32 = y;
    let mut blocked = false;
    while cast_y > 0 && !blocked
        invariant
            cast_y + free == y,
            shadow_len(tile_map.entries(), x, y as int) == free + shadow_len(
                tile_map.entries(),
                x,
                cast_y as int,
            ),
            blocked ==> cast_y > 0 && occupied(tile_map.entries(), x, cast_y - 1),
        decreases cast_y + if blocked { 0int } else { 1int },
    {
        if tile_map.contains_key(&LocationData::new(x, cast_y - 1)) {
            blocked = true;
        } else {
            cast_y = cast_y - 1;
            free = free + 1;
        }
    }
    free
}

/// Works out the shadows for a level that was just built: every tile in view
/// above the bottom row with a free cell right below it casts one shadow,
/// which reaches down to the next tile of its column or to the bottom row.
/// They come column by column, and from the bottom up within a column.
/// Without a level that was just built there are none.
pub fn create_shadows(tile_level_loaded: Option<&TileLevelLoadedEvent>) -> (r: Vec<Shadow>)
    ensures
        r@ == match tile_level_loaded {
            Some(loaded) => grid_shadows(loaded.level_data_map.entries(), TILE_MAP_SIZE as int),
            None => Seq::empty(),
        },
{
    let mut shadows: Vec<Shadow> = Vec::new();
    let tile_map = match tile_level_loaded {
        Some(loaded) => &loaded.level_data_map,
        None => {
            return shadows;
        },
    };
    let mut x: u32 = 0;
    while x < TILE_MAP_SIZE
        invariant
            x <= TILE_MAP_SIZE,
            shadows@ == grid_shadows(tile_map.entries(), x as int),
        decreases TILE_MAP_SIZE - x,
    {
        let ghost before = shadows@;
        let mut y: u32 = 1;
        while y < TILE_MAP_SIZE
            invariant
                x < TILE_MAP_SIZE,
                1 <= y <= TILE_MAP_SIZE,
                shadows@ == before + column_shadows(tile_map.entries(), x, y as int),
            decreases TILE_MAP_SIZE - y,
        {
            if tile_map.contains_key(&LocationData::new(x, y)) {
                let free = measure_shadow(tile_map, x, y);
                if free != 0 {
                    let start_pos = LocationData::new(x, y - 1);
                    let end_pos = LocationData::new(x, y - free);
                    let world_start_pos = tile_pos_to_world_pos_2d(start_pos);
                    let world_end_pos = tile_pos_to_world_pos_2d(end_pos);
                    let midpoint = FixedVec2 {
                        x: world_start_pos.x,
                        y: (world_start_pos.y + world_end_pos.y) / 2,
                    };
                    let size = FixedVec2 { x: TILE_SIZE, y: free as i64 * TILE_SIZE };
                    shadows.push(Shadow { start_pos, end_pos, midpoint, size });
                }
            }
            proof {
                assert(shadows@ =~= before + column_shadows(tile_map.entries(), x, y + 1));
            }
            y = y + 1;
        }
        x = x + 1;
    }
    shadows
}

/// A shadow lies in the column of its tile, begins right below the tile and
/// is as many tiles high as it has cells.
pub proof fn lemma_shadow_extent(tiles: Map<(u32, u32), TileTypeData>, x: u32, y: int)
    requires
        0 <= y <= u32::MAX,
        casts_shadow(tiles, x, y),
    ensures
        1 <= shadow_len(tiles, x, y) <= y,
        shadow_of(tiles, x, y).start_pos == (LocationData { x, y: (y - 1) as u32 }),
        shadow_of(tiles, x, y).end_pos.y + shadow_len(tiles, x, y) == y,
        shadow_of(tiles, x, y).size.y == shadow_len(tiles, x, y) * TILE_SIZE,
        forall|row: int|
            y - shadow_len(tiles, x, y) <= row < y ==> !occupied(tiles, x, row),
        y - shadow_len(tiles, x, y) == 0 || occupied(tiles, x, y - shadow_len(tiles, x, y) - 1),
{
    lemma_shadow_len(tiles, x, y);
    let len = shadow_len(tiles, x, y);
    assert(len * TILE_SIZE <= u32::MAX * TILE_SIZE) by (nonlinear_arith)
        requires
            0 <= len <= u32::MAX,
            TILE_SIZE == 16_000_000,
    ;
}

/// The free cells below a cell are free, and what lies below them is a tile
/// or the edge of the grid.
pub proof fn lemma_shadow_len(tiles: Map<(u32, u32), TileTypeData>, x: u32, y: int)
    requires
        0 <= y <= u32::MAX,
    ensures
        shadow_len(tiles, x, y) <= y,
        forall|row: int|
            y - shadow_len(tiles, x, y) <= row < y ==> !occupied(tiles, x, row),
        y - shadow_len(tiles, x, y) == 0 || occupied(tiles, x, y - shadow_len(tiles, x, y) - 1),
    decreases y,
{
    if y > 0 && !occupied(tiles, x, y - 1) {
        lemma_shadow_len(tiles, x, y - 1);
    }
}

} // verus!
