//! Levels: their data, their loading, the order in which they are played
//! and the world that a level builds.

use crate::levels::data::{
    location_set, lookup_of, unique_locations, LevelData, LocationData, TileData, TileTypeData,
};
use crate::levels::level_loader::{
    first_repeat_index, lemma_load_rejects_duplicates, load_result, parsed_result,
    InvalidLevelError, InvalidLevelErrorReason,
};
use crate::math::{tile_pos_to_world_pos, tile_to_world, FixedVec3};
use crate::player::respawn::RespawnPlayerEvent;
use crate::timer::StartGameEvent;
use crate::win::WinGameEvent;
use vstd::prelude::*;

pub mod data;
pub mod hazard;
pub mod level_loader;

verus! {

/// The number of tile columns, and of tile rows, that are in view.
pub const TILE_MAP_SIZE: u32 = 32;

/// The side of a tile.
pub const TILE_SIZE: i64 = 16_000_000;

/// Half the side of a tile.
pub const HALF_TILE_SIZE: i64 = 8_000_000;

/// The index of the last level.
pub const MAX_LEVEL_INDEX: u32 = 5;

/// The level with this index is to be loaded.
#[derive(Debug, Copy, Clone, PartialEq, Eq, Structural)]
pub struct LoadLevelEvent(pub u32);

/// The level after the current one is to be loaded.
#[derive(Debug, Copy, Clone, Default, PartialEq, Eq, Structural)]
pub struct LoadNextLevelEvent;

/// The level before the current one is to be loaded.
#[derive(Debug, Copy, Clone, Default, PartialEq, Eq, Structural)]
pub struct LoadPreviousLevelEvent;

/// The index of the level that is played.
#[derive(Debug, Copy, Clone, Default, PartialEq, Eq, Structural)]
pub struct CurrentLevel(pub u32);

/// Which kind of tile lies where in a level, in a `bevy::utils::HashMap`
/// keyed by pairs of coordinates.
#[verifier::external_body]
pub struct LevelDataMap {
    inner: bevy::utils::HashMap<(u32, u32), TileTypeData>,
}

/// The tile kinds that a [`LevelDataMap`] holds, by location.
pub uninterp spec fn level_data_map_entries(lookup: LevelDataMap) -> Map<(u32, u32), TileTypeData>;

/// The lookup of a level without tiles.
pub open spec fn empty_lookup() -> Map<(u32, u32), TileTypeData> {
    Map::empty()
}

/// `new` of `bevy::utils::HashMap`, which is hashbrown's `HashMap`: the new
/// map holds nothing.
#[verifier::external_body]
fn map_new() -> (lookup: LevelDataMap)
    ensures
        level_data_map_entries(lookup) == empty_lookup(),
{
    LevelDataMap { inner: bevy::utils::HashMap::new() }
}

/// `insert` of `bevy::utils::HashMap`, which is hashbrown's `HashMap`:
/// afterwards `key` maps to `value`, and every other key to what it mapped
/// to before.
#[verifier::external_body]
fn map_insert(lookup: &mut LevelDataMap, key: (u32, u32), value: TileTypeData)
    ensures
        level_data_map_entries(*final(lookup)) == level_data_map_entries(*old(lookup)).insert(
            key,
            value,
        ),
{
    lookup.inner.insert(key, value);
}

/// `contains_key` of `bevy::utils::HashMap`, which is hashbrown's `HashMap`:
/// whether `key` maps to anything.
#[verifier::external_body]
fn map_contains_key(lookup: &LevelDataMap, key: (u32, u32)) -> (found: bool)
    ensures
        found == level_data_map_entries(*lookup).dom().contains(key),
{
    lookup.inner.contains_key(&key)
}

/// `get` of `bevy::utils::HashMap`, which is hashbrown's `HashMap`: what
/// `key` maps to, if anything.
#[verifier::external_body]
fn map_get(lookup: &LevelDataMap, key: (u32, u32)) -> (value: Option<TileTypeData>)
    ensures
        value == if level_data_map_entries(*lookup).dom().contains(key) {
            Some(level_data_map_entries(*lookup)[key])
        } else {
            None
        },
{
    lookup.inner.get(&key).copied()
}

impl LevelDataMap {
    /// The map as its entries.
    pub open spec fn entries(self) -> Map<(u32, u32), TileTypeData> {
        level_data_map_entries(self)
    }

    /// Whether a tile lies at `location`.
    pub fn contains_key(&self, location: &LocationData) -> (r: bool)
        ensures
            r == self.entries().dom().contains(location.key()),
    {
        map_contains_key(self, (location.x, location.y))
    }

    /// The kind of the tile at `location`, if one lies there.
    pub fn get(&self, location: &LocationData) -> (r: Option<TileTypeData>)
        ensures
            r == if self.entries().dom().contains(location.key()) {
                Some(self.entries()[location.key()])
            } else {
                None
            },
    {
        map_get(self, (location.x, location.y))
    }
}

/// A level was built into a world.
pub struct TileLevelLoadedEvent {
    pub level_data_map: LevelDataMap,
}

/// What one tile of a level puts into the world: a base tile with a solid
/// square body of the tile's size, an overlay in the layer above where the
/// tile has one, and for a hazardous tile a body that reports contact and
/// stops nothing.
#[derive(Debug, Copy, Clone, PartialEq, Eq, Structural)]
pub struct TileSpawn {
    /// The place on the grid, of the base tile and of its overlay.
    pub position: LocationData,
    /// The picture of the base tile.
    pub texture_index: u32,
    /// The picture of the overlay, if there is one.
    pub overlay_texture_index: Option<u32>,
    /// The centre of the tile and of its body in the world.
    pub translation: FixedVec3,
    /// Half the side of the body.
    pub half_extent: i64,
    /// Whether the body reports contact and stops nothing.
    pub sensor: bool,
}

/// The tiles that are alive in the world. They all stem from one level.
#[derive(Debug, Clone, PartialEq, Eq)]
pub struct TileWorld {
    pub tiles: Vec<TileSpawn>,
}

/// What the game is told once a level is built.
pub struct LevelReady {
    pub respawn_player: RespawnPlayerEvent,
    pub tile_level_loaded: TileLevelLoadedEvent,
}

/// What the tile record `tile` puts into the world.
pub open spec fn spawn_of(tile: TileData) -> TileSpawn {
    TileSpawn {
        position: tile.off,
        texture_index: tile.tile_type.index(),
        overlay_texture_index: match tile.over {
            Some(over) => Some(over.index()),
            None => None,
        },
        translation: FixedVec3 {
            x: tile_to_world(tile.off.x) as i64,
            y: tile_to_world(tile.off.y) as i64,
            z: 0,
        },
        half_extent: HALF_TILE_SIZE,
        sensor: tile.tile_type.hazardous(),
    }
}

/// What the tile records `tiles` put into the world, in file order.
pub open spec fn spawns_of(tiles: Seq<TileData>) -> Seq<TileSpawn> {
    tiles.map_values(|t: TileData| spawn_of(t))
}

/// The tiles that are alive once the world was built anew for `level_data`:
/// those of the level and no other, or, without a level, those from before.
pub open spec fn tiles_after(before: Seq<TileSpawn>, level_data: Option<LevelData>) -> Seq<
    TileSpawn,
> {
    match level_data {
        Some(level) => spawns_of(level.tiles@),
        None => before,
    }
}

/// The locations that the lookup of a level knows are the locations of its
/// tiles, no more and no fewer.
pub proof fn lemma_lookup_domain(tiles: Seq<TileData>, n: int)
    requires
        0 <= n <= tiles.len(),
    ensures
        lookup_of(tiles, n).dom() =~= location_set(tiles.take(n)),
    decreases n,
{
    if n > 0 {
        lemma_lookup_domain(tiles, n - 1);
        let before = location_set(tiles.take(n - 1));
        let key = tiles[n - 1].off.key();
        assert forall|k: (u32, u32)| before.insert(key).contains(k) == location_set(
            tiles.take(n),
        ).contains(k) by {
            if k == key {
                assert(tiles.take(n)[n - 1].off.key() == k);
            } else if before.contains(k) {
                let i = choose|i: int|
                    0 <= i < tiles.take(n - 1).len() && #[trigger] tiles.take(n - 1)[i].off.key()
                        == k;
                assert(tiles.take(n)[i].off.key() == k);
            } else if location_set(tiles.take(n)).contains(k) {
                let i = choose|i: int|
                    0 <= i < tiles.take(n).len() && #[trigger] tiles.take(n)[i].off.key() == k;
                assert(i < n - 1);
                assert(tiles.take(n - 1)[i].off.key() == k);
            }
        }
    }
}

/// The first level is asked for and the game starts.
pub fn setup() -> (r: (LoadLevelEvent, StartGameEvent))
    ensures
        r.0 == LoadLevelEvent(0),
{
    (LoadLevelEvent(0), StartGameEvent)
}

fn spawn_tile(tile_data: &TileData) -> (r: TileSpawn)
    ensures
        r == spawn_of(*tile_data),
{
    let overlay_texture_index = match &tile_data.over {
        Some(over) => Some(over.texture_index()),
        None => None,
    };
    TileSpawn {
        position: tile_data.off,
        texture_index: tile_data.tile_type.texture_index(),
        overlay_texture_index,
        translation: tile_pos_to_world_pos(tile_data.off, 0),
        half_extent: HALF_TILE_SIZE,
        sensor: tile_data.tile_type.is_hazard(),
    }
}

/// Builds the world of a level that has just been loaded. Every tile of the
/// world before is retired first: afterwards the world holds what the
/// records of the new level put there, in file order, and nothing else. The
/// lookup that goes out with the notice knows exactly the locations of the
/// level's tiles, each with the kind of the last record that lies there.
/// Without a loaded level nothing changes.
pub fn level_data_ready(world: &mut TileWorld, level_data: Option<&LevelData>) -> (r: Option<
    LevelReady,
>)
    ensures
        final(world).tiles@ == tiles_after(
            old(world).tiles@,
            match level_data {
                Some(level) => Some(*level),
                None => None,
            },
        ),
        level_data is None ==> r is None && *final(world) == *old(world),
        level_data is Some ==> {
            let tiles = level_data->0.tiles@;
            &&& r is Some
            &&& r->0.tile_level_loaded.level_data_map.entries() == lookup_of(
                tiles,
                tiles.len() as int,
            )
            &&& r->0.tile_level_loaded.level_data_map.entries().dom() == location_set(tiles)
        },
{
    match level_data {
        None => None,
        Some(level_data) => {
            let mut level_data_map = map_new();
            let mut spawned: Vec<TileSpawn> = Vec::new();
            let n = level_data.tiles.len();
            let mut i: usize = 0;
            while i < n
                invariant
                    n == level_data.tiles@.len(),
                    i <= n,
                    spawned@ == spawns_of(level_data.tiles@.take(i as int)),
                    level_data_map_entries(level_data_map) == lookup_of(
                        level_data.tiles@,
                        i as int,
                    ),
                decreases n - i,
            {
                let tile_data = &level_data.tiles[i];
                map_insert(&mut level_data_map, (tile_data.off.x, tile_data.off.y), tile_data.tile_type);
                spawned.push(spawn_tile(tile_data));
                proof {
                    let tiles = level_data.tiles@;
                    assert(spawns_of(tiles.take(i as int)).push(spawn_of(tiles[i as int]))
                        =~= spawns_of(tiles.take(i + 1)));
                }
                i = i + 1;
            }
            proof {
                let tiles = level_data.tiles@;
                assert(tiles.take(n as int) =~= tiles);
                lemma_lookup_domain(tiles, n as int);
            }
            world.tiles = spawned;
            Some(
                LevelReady {
                    respawn_player: RespawnPlayerEvent,
                    tile_level_loaded: TileLevelLoadedEvent { level_data_map },
                },
            )
        },
    }
}

/// A level in which two tiles share a location is rejected with the
/// location of such a tile, and the world stays as it was: nothing of the
/// level is built.
pub proof fn lemma_duplicate_level_builds_nothing(
    level: LevelData,
    i: int,
    j: int,
    before: Seq<TileSpawn>,
)
    requires
        0 <= i < j < level.tiles@.len(),
        level.tiles@[i].off == level.tiles@[j].off,
    ensures
        load_result(level) is Err,
        load_result(level)->Err_0.reason == InvalidLevelErrorReason::DuplicateTileLocation(
            level.tiles@[first_repeat_index(level.tiles@)].off,
        ),
        tiles_after(before, accepted(load_result(level))) == before,
{
    lemma_load_rejects_duplicates(level, i, j);
}

/// A level whose tiles lie at different locations is accepted as it is, and
/// the lookup of the world built from it knows exactly the locations of the
/// level's tiles.
pub proof fn lemma_unique_level_builds_its_lookup(level: LevelData, before: Seq<TileSpawn>)
    requires
        unique_locations(level.tiles@),
    ensures
        load_result(level) == Ok::<LevelData, InvalidLevelError>(level),
        tiles_after(before, accepted(load_result(level))) == spawns_of(level.tiles@),
        lookup_of(level.tiles@, level.tiles@.len() as int).dom() == location_set(level.tiles@),
{
    lemma_lookup_domain(level.tiles@, level.tiles@.len() as int);
    assert(level.tiles@.take(level.tiles@.len() as int) =~= level.tiles@);
}

/// A level file that fails to load, whether its bytes are no level or its
/// level may not be used, leaves the world as it was.
pub proof fn lemma_failed_load_builds_nothing(
    parsed: Result<LevelData, String>,
    before: Seq<TileSpawn>,
)
    requires
        parsed_result(parsed) is Err,
    ensures
        tiles_after(
            before,
            match parsed_result(parsed) {
                Ok(level) => Some(level),
                Err(_) => None,
            },
        ) == before,
{
}

/// The level that the check let through, if it let one through.
pub open spec fn accepted(r: Result<LevelData, InvalidLevelError>) -> Option<LevelData> {
    match r {
        Ok(level) => Some(level),
        Err(_) => None,
    }
}

/// Takes the index of the level that is asked for as the current one.
pub fn receive_load_level(load_level: Option<LoadLevelEvent>, current_level: &mut CurrentLevel)
    ensures
        final(current_level).0 == if load_level is Some {
            (load_level->0).0
        } else {
            old(current_level).0
        },
{
    if let Some(load_level) = load_level {
        current_level.0 = load_level.0;
    }
}

/// What a request for the next level leads to.
#[derive(Debug, Copy, Clone, PartialEq, Eq, Structural)]
pub enum NextLevel {
    /// No request was pending.
    Nothing,
    /// The level after the current one is asked for.
    Load(LoadLevelEvent),
    /// The current level is the last one: the game is won.
    Win(WinGameEvent),
}

/// What a request for the next level leads to from the level `current`.
pub open spec fn next_level_of(current: u32) -> NextLevel {
    if current < MAX_LEVEL_INDEX {
        NextLevel::Load(LoadLevelEvent((current + 1) as u32))
    } else {
        NextLevel::Win(WinGameEvent)
    }
}

/// Answers a request for the next level: below the last level the level
/// after the current one is asked for; from the last level on the game is
/// won and no level is asked for.
pub fn receive_load_next_level(
    current_level: &CurrentLevel,
    load_next_level: Option<LoadNextLevelEvent>,
) -> (r: NextLevel)
    ensures
        r == if load_next_level is Some {
            next_level_of(current_level.0)
        } else {
            NextLevel::Nothing
        },
{
    if load_next_level.is_some() {
        if current_level.0 < MAX_LEVEL_INDEX {
            NextLevel::Load(LoadLevelEvent(current_level.0 + 1))
        } else {
            NextLevel::Win(WinGameEvent)
        }
    } else {
        NextLevel::Nothing
    }
}

/// Answers a request for the previous level: the level before the current
/// one is asked for, unless the current one is the first.
pub fn receive_load_previous_level(
    current_level: &CurrentLevel,
    load_previous_level: Option<LoadPreviousLevelEvent>,
) -> (r: Option<LoadLevelEvent>)
    ensures
        r == if load_previous_level is Some && current_level.0 > 0 {
            Some(LoadLevelEvent((current_level.0 - 1) as u32))
        } else {
            None
        },
{
    if load_previous_level.is_some() && current_level.0 > 0 {
        Some(LoadLevelEvent(current_level.0 - 1))
    } else {
        None
    }
}

} // verus!
