//! The level editor: which tile is being placed, what a click does, and the
//! level that is written out.

use crate::levels::data::{
    is_overlay_texture_index, is_tile_texture_index, LevelData, LocationData, OverlayData, TileData,
    TileTypeData,
};
use crate::math::{world_pos_to_tile_pos, world_to_tile, FixedVec2, FixedVec3};
use crate::text::{decimal_text, push_decimal};
use vstd::prelude::*;

verus! {

/// Whether the editor is switched on.
#[derive(Debug, Copy, Clone, Hash, PartialEq, Eq, Structural)]
pub enum EditorState {
    Off,
    On,
}

impl Default for EditorState {
    fn default() -> (r: Self)
        ensures
            r == EditorState::Off,
    {
        EditorState::Off
    }
}

/// The tile that a click places.
#[derive(Debug, Copy, Clone, PartialEq, Eq, Structural)]
pub enum CurrentEditorTile {
    Base(TileTypeData),
    Overlay(OverlayData),
}

impl Default for CurrentEditorTile {
    fn default() -> (r: Self)
        ensures
            r == CurrentEditorTile::Base(TileTypeData::Dirt),
    {
        Self::Base(TileTypeData::Dirt)
    }
}

/// The layer that a tile belongs to.
#[derive(Debug, Copy, Clone, PartialEq, Eq, Structural)]
pub enum EditorLayer {
    Main,
    Overlay,
}

/// What a click does to a cell.
#[derive(Debug, Copy, Clone, PartialEq, Eq, Structural)]
pub enum EditorChange {
    /// The cell gets the tile with this texture index.
    Place(u32),
    /// The cell is emptied.
    Clear,
}

/// A click in the editor.
#[derive(Debug, Copy, Clone, PartialEq, Eq, Structural)]
pub struct EditorClick {
    pub layer: EditorLayer,
    pub tile_pos: LocationData,
    pub change: EditorChange,
}

/// A tile of the main layer as the editor finds it in the world, with the
/// overlay that lies on it.
#[derive(Debug, Copy, Clone, PartialEq, Eq, Structural)]
pub struct EditorTile {
    pub tile_pos: LocationData,
    pub texture_index: u32,
    pub overlay_texture_index: Option<u32>,
}

impl EditorState {
    /// The other state.
    pub open spec fn toggled(self) -> EditorState {
        match self {
            EditorState::Off => EditorState::On,
            EditorState::On => EditorState::Off,
        }
    }
}

impl CurrentEditorTile {
    /// The tile that comes after this one: the base tiles in the order of
    /// their kinds, then the overlay, then the first base tile again.
    pub open spec fn next(self) -> CurrentEditorTile {
        match self {
            CurrentEditorTile::Base(TileTypeData::Dirt) => CurrentEditorTile::Base(
                TileTypeData::Stone,
            ),
            CurrentEditorTile::Base(TileTypeData::Stone) => CurrentEditorTile::Base(
                TileTypeData::Water,
            ),
            CurrentEditorTile::Base(TileTypeData::Water) => CurrentEditorTile::Overlay(
                OverlayData::Grass,
            ),
            CurrentEditorTile::Overlay(OverlayData::Grass) => CurrentEditorTile::Base(
                TileTypeData::Dirt,
            ),
        }
    }

    /// The layer that the tile belongs to.
    pub open spec fn layer(self) -> EditorLayer {
        match self {
            CurrentEditorTile::Base(_) => EditorLayer::Main,
            CurrentEditorTile::Overlay(_) => EditorLayer::Overlay,
        }
    }

    /// The texture index of the tile.
    pub open spec fn index(self) -> u32 {
        match self {
            CurrentEditorTile::Base(base) => base.index(),
            CurrentEditorTile::Overlay(overlay) => overlay.index(),
        }
    }

    /// Going on from tile to tile leads through all four tiles and back.
    pub proof fn lemma_next_cycles(self)
        ensures
            self.next() != self,
            self.next().next() != self,
            self.next().next().next() != self,
            self.next().next().next().next() == self,
    {
    }
}

/// What the click at `world_pos` does with the tile `tile` in hand.
pub open spec fn click_of(
    left: bool,
    right: bool,
    world_pos: FixedVec2,
    tile: CurrentEditorTile,
) -> Option<EditorClick> {
    let tile_pos = LocationData {
        x: world_to_tile(world_pos.x) as u32,
        y: world_to_tile(world_pos.y) as u32,
    };
    if left {
        Some(EditorClick { layer: tile.layer(), tile_pos, change: EditorChange::Place(tile.index()) })
    } else if right {
        Some(EditorClick { layer: tile.layer(), tile_pos, change: EditorChange::Clear })
    } else {
        None
    }
}

/// Whether the editor found nothing in the world that is no tile.
pub open spec fn known_tiles(tiles: Seq<EditorTile>) -> bool {
    forall|i: int|
        0 <= i < tiles.len() ==> is_tile_texture_index((#[trigger] tiles[i]).texture_index) && (
        tiles[i].overlay_texture_index is Some ==> is_overlay_texture_index(
            tiles[i].overlay_texture_index->0,
        ))
}

/// Whether the record `record` says what the editor found in `tile`.
pub open spec fn records(record: TileData, tile: EditorTile) -> bool {
    &&& record.off == tile.tile_pos
    &&& record.tile_type.index() == tile.texture_index
    &&& match tile.overlay_texture_index {
        Some(index) => record.over is Some && record.over->0.index() == index,
        None => record.over is None,
    }
}

/// The path of the file that the editor writes level `level` to.
pub open spec fn save_path(level: u32) -> Seq<char> {
    "assets/level/level"@ + decimal_text(level as nat) + ".lvl.json"@
}

/// The state after the key that switches the editor was looked at: the
/// other state where the key went down in this tick, else none.
pub fn toggle_editor_mode(editor_state: EditorState, pressed: bool) -> (r: Option<EditorState>)
    ensures
        r == if pressed {
            Some(editor_state.toggled())
        } else {
            None
        },
{
    if pressed {
        match editor_state {
            EditorState::Off => Some(EditorState::On),
            EditorState::On => Some(EditorState::Off),
        }
    } else {
        None
    }
}

/// Goes on to the next tile where the key for it went down in this tick.
pub fn change_editor_tile(current_tile: &mut CurrentEditorTile, pressed: bool)
    ensures
        *final(current_tile) == if pressed {
            old(current_tile).next()
        } else {
            *old(current_tile)
        },
{
    if pressed {
        let switch_to = match *current_tile {
            CurrentEditorTile::Base(tile) => match tile {
                TileTypeData::Dirt => CurrentEditorTile::Base(TileTypeData::Stone),
                TileTypeData::Stone => CurrentEditorTile::Base(TileTypeData::Water),
                TileTypeData::Water => CurrentEditorTile::Overlay(OverlayData::Grass),
            },
            CurrentEditorTile::Overlay(overlay) => match overlay {
                OverlayData::Grass => CurrentEditorTile::Base(TileTypeData::Dirt),
            },
        };
        *current_tile = switch_to;
    }
}

/// What a click does. The left button sets the cell under the pointer, in
/// the layer of the tile in hand, to that tile; the right button, where the
/// left did not go down, empties the cell in that layer.
pub fn editor_click_tile(
    left: bool,
    right: bool,
    world_pos: FixedVec2,
    current_editor_tile: &CurrentEditorTile,
) -> (r: Option<EditorClick>)
    ensures
        r == click_of(left, right, world_pos, *current_editor_tile),
{
    if !left && !right {
        return None;
    }
    let tile_pos = world_pos_to_tile_pos(FixedVec3 { x: world_pos.x, y: world_pos.y, z: 0 });
    let (layer, texture_index) = match current_editor_tile {
        CurrentEditorTile::Base(base) => (EditorLayer::Main, base.texture_index()),
        CurrentEditorTile::Overlay(overlay) => (EditorLayer::Overlay, overlay.texture_index()),
    };
    if left {
        Some(EditorClick { layer, tile_pos, change: EditorChange::Place(texture_index) })
    } else {
        Some(EditorClick { layer, tile_pos, change: EditorChange::Clear })
    }
}

/// Whether every texture index that the editor found is that of a tile or,
/// for an overlay, of an overlay.
pub fn check_tiles(tiles: &Vec<EditorTile>) -> (r: bool)
    ensures
        r == known_tiles(tiles@),
{
    let mut i: usize = 0;
    while i < tiles.len()
        invariant
            i <= tiles.len(),
            known_tiles(tiles@.take(i as int)),
        decreases tiles.len() - i,
    {
        let tile = tiles[i];
        let base_known = TileTypeData::try_from_texture_index(tile.texture_index).is_some();
        let overlay_known = match tile.overlay_texture_index {
            Some(index) => OverlayData::try_from_texture_index(index).is_some(),
            None => true,
        };
        if !base_known || !overlay_known {
            return false;
        }
        proof {
            assert forall|k: int| 0 <= k < i + 1 implies is_tile_texture_index(
                (#[trigger] tiles@.take(i + 1)[k]).texture_index,
            ) && (tiles@.take(i + 1)[k].overlay_texture_index is Some ==> is_overlay_texture_index(
                tiles@.take(i + 1)[k].overlay_texture_index->0,
            )) by {
                if k < i {
                    assert(tiles@.take(i as int)[k] == tiles@[k]);
                }
            }
        }
        i = i + 1;
    }
    assert(tiles@.take(tiles.len() as int) =~= tiles@);
    true
}

/// The level that the editor writes out: the spawn point of the level in
/// use, or the cell in the corner where no level is in use, and one record
/// for each tile of the main layer, in the order in which they were found,
/// with the overlay that lies on it. A texture index of no tile is a fault
/// in the content, never an input.
pub fn save_current_tile_map(spawn_location: Option<LocationData>, tiles: &Vec<EditorTile>) -> (r:
    LevelData)
    requires
        known_tiles(tiles@),
    ensures
        r.spawn_location == match spawn_location {
            Some(location) => location,
            None => LocationData { x: 0, y: 0 },
        },
        r.tiles@.len() == tiles@.len(),
        forall|i: int| 0 <= i < tiles@.len() ==> records(#[trigger] r.tiles@[i], tiles@[i]),
{
    let spawn_location = match spawn_location {
        Some(location) => location,
        None => LocationData::new(0, 0),
    };
    let mut level_data = LevelData { spawn_location, tiles: Vec::new() };
    let mut i: usize = 0;
    while i < tiles.len()
        invariant
            i <= tiles.len(),
            known_tiles(tiles@),
            level_data.spawn_location == spawn_location,
            level_data.tiles@.len() == i,
            forall|k: int| 0 <= k < i ==> records(#[trigger] level_data.tiles@[k], tiles@[k]),
        decreases tiles.len() - i,
    {
        let tile = tiles[i];
        let over = match tile.overlay_texture_index {
            Some(index) => Some(OverlayData::from_texture_index(index)),
            None => None,
        };
        level_data.tiles.push(
            TileData {
                tile_type: TileTypeData::from_texture_index(tile.texture_index),
                off: tile.tile_pos,
                over,
            },
        );
        i = i + 1;
    }
    level_data
}

/// The path of the file that the editor writes level `level` to.
pub fn level_save_path(level: u32) -> (path: String)
    ensures
        path@ == save_path(level),
{
    let mut path = String::from_str("assets/level/level");
    push_decimal(&mut path, level as u64);
    path.append(".lvl.json");
    path
}

} // verus!
