//! Loading a level: which files are level files, which request for a file is
//! the current one, and the check that a level must pass before it is used.

use crate::levels::data::{
    repeats_earlier, unique_locations, LevelData, LocationData, TileData,
};
use crate::levels::LoadLevelEvent;
use crate::text::{decimal_text, push_decimal, same_text};
use vstd::prelude::*;

verus! {

/// The locations met so far while the tiles of a level are gone through, in
/// a `bevy::utils::HashSet` of pairs of coordinates.
#[verifier::external_body]
pub struct SeenLocations {
    inner: bevy::utils::HashSet<(u32, u32)>,
}

/// The locations that a [`SeenLocations`] holds.
pub uninterp spec fn seen_locations(seen: SeenLocations) -> Set<(u32, u32)>;

/// `new` of `bevy::utils::HashSet`, which is hashbrown's `HashSet`: the new
/// set holds nothing.
#[verifier::external_body]
fn seen_new() -> (seen: SeenLocations)
    ensures
        seen_locations(seen) == Set::<(u32, u32)>::empty(),
{
    SeenLocations { inner: bevy::utils::HashSet::new() }
}

/// `contains` of `bevy::utils::HashSet`, which is hashbrown's `HashSet`:
/// whether the set holds `key`.
#[verifier::external_body]
fn seen_contains(seen: &SeenLocations, key: (u32, u32)) -> (found: bool)
    ensures
        found == seen_locations(*seen).contains(key),
{
    seen.inner.contains(&key)
}

/// `insert` of `bevy::utils::HashSet`, which is hashbrown's `HashSet`:
/// afterwards the set holds `key` and what it held before.
#[verifier::external_body]
fn seen_insert(seen: &mut SeenLocations, key: (u32, u32))
    ensures
        seen_locations(*final(seen)) == seen_locations(*old(seen)).insert(key),
{
    seen.inner.insert(key);
}

/// What is wrong with a level.
#[derive(Debug, Copy, Clone, PartialEq, Eq, Structural)]
pub enum InvalidLevelErrorReason {
    /// Two tiles lie at this location.
    DuplicateTileLocation(LocationData),
}

/// A level that parsed but may not be used.
#[derive(Debug, Copy, Clone, PartialEq, Eq, Structural)]
pub struct InvalidLevelError {
    pub reason: InvalidLevelErrorReason,
}

impl InvalidLevelError {
    /// The error for this reason.
    pub fn new(reason: InvalidLevelErrorReason) -> (r: Self)
        ensures
            r.reason == reason,
    {
        Self { reason }
    }

    /// The text of the error.
    pub open spec fn message_text(self) -> Seq<char> {
        match self.reason {
            InvalidLevelErrorReason::DuplicateTileLocation(loc) => "Duplicate tile location at: "@
                + loc.display_text(),
        }
    }

    /// The error in words.
    pub fn message(&self) -> (s: String)
        ensures
            s@ == self.message_text(),
    {
        match self.reason {
            InvalidLevelErrorReason::DuplicateTileLocation(loc) => {
                let mut s = String::from_str("Duplicate tile location at: ");
                let place = loc.describe();
                s.append(place.as_str());
                s
            },
        }
    }
}

/// Why a level file gave no level.
#[derive(Debug, Clone, PartialEq, Eq)]
pub enum LevelJSONAssetLoaderError {
    /// The bytes of the file are no level; the text says what is wrong.
    SerdeParse(String),
    /// The file could not be read; the text says what is wrong.
    IO(String),
    /// The file holds a level that may not be used.
    InvalidLevel(InvalidLevelError),
}

impl LevelJSONAssetLoaderError {
    /// The text of the error.
    pub open spec fn message_text(self) -> Seq<char> {
        match self {
            LevelJSONAssetLoaderError::SerdeParse(text) => "Could not parse json: "@ + text@,
            LevelJSONAssetLoaderError::IO(text) => "Could not read file: "@ + text@,
            LevelJSONAssetLoaderError::InvalidLevel(error) => "Level data was invalid: "@
                + error.message_text(),
        }
    }

    /// The error in words.
    pub fn message(&self) -> (s: String)
        ensures
            s@ == self.message_text(),
    {
        match self {
            LevelJSONAssetLoaderError::SerdeParse(text) => {
                let mut s = String::from_str("Could not parse json: ");
                s.append(text.as_str());
                s
            },
            LevelJSONAssetLoaderError::IO(text) => {
                let mut s = String::from_str("Could not read file: ");
                s.append(text.as_str());
                s
            },
            LevelJSONAssetLoaderError::InvalidLevel(error) => {
                let mut s = String::from_str("Level data was invalid: ");
                let reason = error.message();
                s.append(reason.as_str());
                s
            },
        }
    }
}

/// The record at `j` is the first, in file order, to lie where an earlier
/// record already lies.
pub open spec fn first_repeat(tiles: Seq<TileData>, j: int) -> bool {
    &&& 0 <= j < tiles.len()
    &&& repeats_earlier(tiles, j)
    &&& forall|k: int| 0 <= k < j ==> !repeats_earlier(tiles, k)
}

/// The index of the first record, in file order, that lies where an earlier
/// record already lies; it is only there to ask for where such a record is.
pub open spec fn first_repeat_index(tiles: Seq<TileData>) -> int {
    choose|j: int| first_repeat(tiles, j)
}

/// What the check of a parsed level gives: the level itself where no two
/// tiles share a location, else the location of the first tile that lies on
/// an earlier one.
pub open spec fn load_result(level: LevelData) -> Result<LevelData, InvalidLevelError> {
    if unique_locations(level.tiles@) {
        Ok(level)
    } else {
        Err(
            InvalidLevelError {
                reason: InvalidLevelErrorReason::DuplicateTileLocation(
                    level.tiles@[first_repeat_index(level.tiles@)].off,
                ),
            },
        )
    }
}

/// What comes of a level file once its bytes were parsed: bytes that are no
/// level fail the load with what the parser said, and a level that parsed is
/// checked.
pub open spec fn parsed_result(parsed: Result<LevelData, String>) -> Result<
    LevelData,
    LevelJSONAssetLoaderError,
> {
    match parsed {
        Err(text) => Err(LevelJSONAssetLoaderError::SerdeParse(text)),
        Ok(level) => match load_result(level) {
            Ok(checked) => Ok(checked),
            Err(error) => Err(LevelJSONAssetLoaderError::InvalidLevel(error)),
        },
    }
}

/// There is at most one first record that lies on an earlier one, and where
/// there is one, two tiles share a location.
pub proof fn lemma_first_repeat(tiles: Seq<TileData>, j: int)
    requires
        first_repeat(tiles, j),
    ensures
        first_repeat_index(tiles) == j,
        !unique_locations(tiles),
{
    let k = first_repeat_index(tiles);
    assert(first_repeat(tiles, k));
    if k < j {
        assert(!repeats_earlier(tiles, k));
    }
    if j < k {
        assert(!repeats_earlier(tiles, j));
    }
    let i = choose|i: int| 0 <= i < j && #[trigger] tiles[i].off == tiles[j].off;
    assert(tiles[i].off == tiles[j].off);
}

/// The keys of the first `n` records of `tiles`.
pub open spec fn keys_before(tiles: Seq<TileData>, n: int) -> Set<(u32, u32)> {
    Set::new(|k: (u32, u32)| exists|i: int| 0 <= i < n && #[trigger] tiles[i].off.key() == k)
}

/// The one extension that a level file has.
pub open spec fn level_extension() -> Seq<char> {
    "lvl"@
}

/// The path of the file of level `level` among the assets.
pub open spec fn level_path(level: u32) -> Seq<char> {
    "level/level"@ + decimal_text(level as nat) + ".lvl"@
}

/// Turns parsed level files into levels.
#[derive(Debug, Copy, Clone, Default)]
pub struct LevelJSONAssetLoader;

impl LevelJSONAssetLoader {
    /// Checks a parsed level. The tiles are gone through in file order, and
    /// the first that lies where an earlier one lies fails the load with its
    /// location; a level without such a tile is handed back unchanged.
    pub fn load(&self, level_json: LevelData) -> (r: Result<LevelData, InvalidLevelError>)
        ensures
            r == load_result(level_json),
    {
        let mut tiles_set = seen_new();
        let n = level_json.tiles.len();
        let mut j: usize = 0;
        while j < n
            invariant
                n == level_json.tiles@.len(),
                j <= n,
                seen_locations(tiles_set) == keys_before(level_json.tiles@, j as int),
                forall|k: int| 0 <= k < j ==> !repeats_earlier(level_json.tiles@, k),
            decreases n - j,
        {
            let tile = level_json.tiles[j];
            let key = (tile.off.x, tile.off.y);
            let ghost tiles = level_json.tiles@;
            if seen_contains(&tiles_set, key) {
                proof {
                    let i = choose|i: int| 0 <= i < j && #[trigger] tiles[i].off.key() == key;
                    assert(tiles[i].off == tiles[j as int].off);
                    assert(first_repeat(tiles, j as int));
                    lemma_first_repeat(tiles, j as int);
                }
                return Err(
                    InvalidLevelError::new(InvalidLevelErrorReason::DuplicateTileLocation(tile.off)),
                );
            } else {
                proof {
                    assert(!repeats_earlier(tiles, j as int)) by {
                        if repeats_earlier(tiles, j as int) {
                            let i = choose|i: int|
                                0 <= i < j && #[trigger] tiles[i].off == tiles[j as int].off;
                            assert(tiles[i].off.key() == key);
                            assert(keys_before(tiles, j as int).contains(key));
                        }
                    }
                }
                seen_insert(&mut tiles_set, key);
                proof {
                    assert(keys_before(tiles, j as int).insert(key) =~= keys_before(tiles, j + 1))
                        by {
                        assert forall|k: (u32, u32)|
                            keys_before(tiles, j as int).insert(key).contains(k)
                                == keys_before(tiles, j + 1).contains(k) by {
                            if k == key {
                                assert(tiles[j as int].off.key() == k);
                            } else if keys_before(tiles, j + 1).contains(k) {
                                let i = choose|i: int|
                                    0 <= i < j + 1 && #[trigger] tiles[i].off.key() == k;
                                assert(i < j);
                            } else if keys_before(tiles, j as int).contains(k) {
                                let i = choose|i: int|
                                    0 <= i < j && #[trigger] tiles[i].off.key() == k;
                                assert(0 <= i < j + 1);
                            }
                        }
                    }
                }
            }
            j = j + 1;
        }
        proof {
            let tiles = level_json.tiles@;
            assert forall|a: int, b: int| 0 <= a < b < tiles.len() implies #[trigger] tiles[a].off
                != #[trigger] tiles[b].off by {
                assert(!repeats_earlier(tiles, b));
            }
        }
        Ok(level_json)
    }

    /// Ends the load of a level file whose bytes were handed to the parser.
    /// Bytes that are no level and a level that may not be used both fail
    /// the load, each with an error of its own kind.
    pub fn load_parsed(&self, parsed: Result<LevelData, String>) -> (r: Result<
        LevelData,
        LevelJSONAssetLoaderError,
    >)
        ensures
            r == parsed_result(parsed),
    {
        match parsed {
            Err(text) => Err(LevelJSONAssetLoaderError::SerdeParse(text)),
            Ok(level_json) => match self.load(level_json) {
                Ok(level) => Ok(level),
                Err(error) => Err(LevelJSONAssetLoaderError::InvalidLevel(error)),
            },
        }
    }

    /// The extensions of the files that are level files.
    pub fn extensions(&self) -> (r: Vec<&'static str>)
        ensures
            r@.len() == 1,
            r@[0]@ == level_extension(),
    {
        let mut r: Vec<&'static str> = Vec::new();
        r.push("lvl");
        r
    }

    /// Whether a file with this extension is a level file. No other file is
    /// ever handed to the loader.
    pub fn accepts(&self, extension: &str) -> (r: bool)
        ensures
            r == (extension@ == level_extension()),
    {
        same_text(extension, "lvl")
    }
}

/// A level in which two tiles share a location is rejected, with the
/// location of the first tile, in file order, that lies on an earlier one.
pub proof fn lemma_load_rejects_duplicates(level: LevelData, i: int, j: int)
    requires
        0 <= i < j < level.tiles@.len(),
        level.tiles@[i].off == level.tiles@[j].off,
    ensures
        load_result(level) is Err,
        first_repeat(level.tiles@, first_repeat_index(level.tiles@)),
        first_repeat_index(level.tiles@) <= j,
        load_result(level)->Err_0.reason == InvalidLevelErrorReason::DuplicateTileLocation(
            level.tiles@[first_repeat_index(level.tiles@)].off,
        ),
{
    let tiles = level.tiles@;
    assert(repeats_earlier(tiles, j));
    lemma_some_first_repeat(tiles, j);
    let k = first_repeat_index(tiles);
    if k > j {
        assert(!repeats_earlier(tiles, j));
    }
}

/// Where some record up to `j` lies on an earlier one, one record is the
/// first to do so.
pub proof fn lemma_some_first_repeat(tiles: Seq<TileData>, j: int)
    requires
        0 <= j < tiles.len(),
        repeats_earlier(tiles, j),
    ensures
        exists|k: int| first_repeat(tiles, k),
        first_repeat(tiles, first_repeat_index(tiles)),
    decreases j,
{
    if exists|k: int| 0 <= k < j && repeats_earlier(tiles, k) {
        let k = choose|k: int| 0 <= k < j && repeats_earlier(tiles, k);
        lemma_some_first_repeat(tiles, k);
    } else {
        assert(first_repeat(tiles, j));
    }
}

/// A level whose tiles lie at different locations is accepted as it is.
pub proof fn lemma_load_accepts_unique(level: LevelData)
    requires
        unique_locations(level.tiles@),
    ensures
        load_result(level) == Ok::<LevelData, InvalidLevelError>(level),
{
}

/// A request for the file of a level.
#[derive(Debug, Clone, PartialEq, Eq)]
pub struct LevelRequest {
    /// The number under which the loaded file is reported.
    pub ticket: u64,
    /// The index of the level.
    pub level: u32,
    /// The path of the file among the assets.
    pub path: String,
}

/// The level that is in use and the request, if any, that is under way.
/// A new request takes the place of one under way, and what is reported
/// under the number of a request that lost its place is ignored.
#[derive(Debug, Copy, Clone, PartialEq, Eq, Structural)]
pub struct LevelDataHandleRes {
    /// The number of the request whose level is in use.
    pub active: Option<u64>,
    /// The number of the request under way.
    pub pending: Option<u64>,
    /// The number that the next request gets.
    pub issued: u64,
}

/// A level file was loaded and checked.
#[derive(Debug, Copy, Clone, PartialEq, Eq, Structural)]
pub struct LevelDataLoadedEvent(pub u64);

impl Default for LevelDataHandleRes {
    fn default() -> (r: Self)
        ensures
            r.active is None,
            r.pending is None,
            r.issued == 0,
    {
        LevelDataHandleRes { active: None, pending: None, issued: 0 }
    }
}

/// The number after `ticket`; after the last comes the first again.
pub open spec fn next_ticket(ticket: u64) -> u64 {
    if ticket == u64::MAX {
        0
    } else {
        (ticket + 1) as u64
    }
}

/// The path of the file of level `level` among the assets.
pub fn level_asset_path(level: u32) -> (path: String)
    ensures
        path@ == level_path(level),
{
    let mut path = String::from_str("level/level");
    push_decimal(&mut path, level as u64);
    path.append(".lvl");
    path
}

impl LevelDataHandleRes {
    /// The state once a new request has been made.
    pub open spec fn requested(self) -> LevelDataHandleRes {
        LevelDataHandleRes {
            active: self.active,
            pending: Some(self.issued),
            issued: next_ticket(self.issued),
        }
    }

    /// The state once the load asked for under `ticket` is reported done.
    pub open spec fn reported(self, ticket: u64) -> LevelDataHandleRes {
        if self.pending == Some(ticket) {
            LevelDataHandleRes { active: Some(ticket), pending: None, issued: self.issued }
        } else {
            self
        }
    }

    /// The state once the load asked for under `ticket` is reported failed.
    pub open spec fn failed(self, ticket: u64) -> LevelDataHandleRes {
        if self.pending == Some(ticket) {
            LevelDataHandleRes { active: self.active, pending: None, issued: self.issued }
        } else {
            self
        }
    }
}

/// Starts the load of a level on the next pending request for one: the
/// request gets a fresh number and takes the place of any request under way.
/// Without a pending request nothing changes.
pub fn load_level(handle: &mut LevelDataHandleRes, set_level: Option<LoadLevelEvent>) -> (r: Option<
    LevelRequest,
>)
    ensures
        set_level is None ==> r is None && *final(handle) == *old(handle),
        set_level is Some ==> {
            &&& r is Some
            &&& r->0.ticket == old(handle).issued
            &&& r->0.level == (set_level->0).0
            &&& r->0.path@ == level_path((set_level->0).0)
            &&& *final(handle) == old(handle).requested()
        },
{
    match set_level {
        None => None,
        Some(level_id) => {
            let ticket = handle.issued;
            handle.issued = if ticket == u64::MAX {
                0
            } else {
                ticket + 1
            };
            handle.pending = Some(ticket);
            Some(LevelRequest { ticket, level: level_id.0, path: level_asset_path(level_id.0) })
        },
    }
}

/// Takes in the report that the file asked for under `ticket` is loaded. If
/// that request is the one under way, its level comes into use and the
/// report is passed on; a report for any other request is dropped.
pub fn set_loaded_level(handle: &mut LevelDataHandleRes, ticket: u64) -> (r: Option<
    LevelDataLoadedEvent,
>)
    ensures
        *final(handle) == old(handle).reported(ticket),
        r == if old(handle).pending == Some(ticket) {
            Some(LevelDataLoadedEvent(ticket))
        } else {
            None
        },
{
    let under_way = match handle.pending {
        Some(current) => current == ticket,
        None => false,
    };
    if under_way {
        handle.active = Some(ticket);
        handle.pending = None;
        Some(LevelDataLoadedEvent(ticket))
    } else {
        None
    }
}

/// Takes in the report that the load asked for under `ticket` failed. If that
/// request is the one under way it is given up; the level in use stays in use
/// either way.
pub fn set_failed_level(handle: &mut LevelDataHandleRes, ticket: u64)
    ensures
        *final(handle) == old(handle).failed(ticket),
        final(handle).active == old(handle).active,
{
    let under_way = match handle.pending {
        Some(current) => current == ticket,
        None => false,
    };
    if under_way {
        handle.pending = None;
    }
}

/// Once a new request has taken the place of the one under way, a report
/// for the old request, done or failed, changes nothing: the last request
/// wins.
pub proof fn lemma_superseded_request_ignored(before: LevelDataHandleRes)
    requires
        before.pending is Some,
        before.pending->0 != before.issued,
    ensures
        before.requested().reported(before.pending->0) == before.requested(),
        before.requested().failed(before.pending->0) == before.requested(),
        before.requested().reported(before.issued).active == Some(before.issued),
{
}

/// A failed load never changes which level is in use.
pub proof fn lemma_failed_load_keeps_level(before: LevelDataHandleRes, ticket: u64)
    ensures
        before.failed(ticket).active == before.active,
{
}

} // verus!
