//! What a level file holds: tile locations, tile kinds, overlays and the
//! records that tie them together.

use crate::text::{
    all_digits, chars_of, decimal_text, is_digit, lemma_decimal_text_value,
    lemma_parse_decimal_text, parse_number, parse_number_in, push_decimal, NumberError,
};
use vstd::prelude::*;

verus! {

/// A place on the tile grid.
#[derive(Debug, Copy, Clone, Hash, PartialEq, Eq, Structural)]
pub struct LocationData {
    pub x: u32,
    pub y: u32,
}

/// Why a piece of text is not a location.
#[derive(Debug, Copy, Clone, PartialEq, Eq, Structural)]
pub enum LocationError {
    /// The text does not split at commas into exactly two fields.
    FieldCount,
    /// The first field is not a number.
    X(NumberError),
    /// The second field is not a number.
    Y(NumberError),
}

/// `s` holds exactly one comma, at index `i`.
pub open spec fn sole_comma(s: Seq<char>, i: int) -> bool {
    &&& 0 <= i < s.len()
    &&& s[i] == ','
    &&& forall|j: int| 0 <= j < s.len() && j != i ==> s[j] != ','
}

/// What a piece of text decodes to: two numbers around a single comma.
pub open spec fn decode_location(s: Seq<char>) -> Result<LocationData, LocationError> {
    if exists|i: int| sole_comma(s, i) {
        let i = choose|i: int| sole_comma(s, i);
        match parse_number(s.take(i)) {
            Err(e) => Err(LocationError::X(e)),
            Ok(x) => match parse_number(s.skip(i + 1)) {
                Err(e) => Err(LocationError::Y(e)),
                Ok(y) => Ok(LocationData { x, y }),
            },
        }
    } else {
        Err(LocationError::FieldCount)
    }
}

impl LocationData {
    /// The place in column `x` and row `y`.
    pub fn new(x: u32, y: u32) -> (r: Self)
        ensures
            r == (LocationData { x, y }),
    {
        Self { x, y }
    }

    /// The location as a pair, the form in which collections key it.
    pub open spec fn key(self) -> (u32, u32) {
        (self.x, self.y)
    }

    /// The text of a location in a level file: `x,y`.
    pub open spec fn text(self) -> Seq<char> {
        decimal_text(self.x as nat) + seq![','] + decimal_text(self.y as nat)
    }

    /// The text of a location in a message: `x: 3, y: 7`.
    pub open spec fn display_text(self) -> Seq<char> {
        "x: "@ + decimal_text(self.x as nat) + ", y: "@ + decimal_text(self.y as nat)
    }

    /// Writes the location as it stands in a level file.
    pub fn encode(&self) -> (s: String)
        ensures
            s@ == self.text(),
    {
        let mut s = String::new();
        push_decimal(&mut s, self.x as u64);
        s.append(",");
        push_decimal(&mut s, self.y as u64);
        proof {
            reveal_strlit(",");
            assert(","@ =~= seq![',']);
            assert(s@ =~= self.text());
        }
        s
    }

    /// Reads a location from the text of a level file. Text that does not
    /// split into exactly two numbers is rejected, and the error says which
    /// part failed and why.
    pub fn decode(value: &str) -> (r: Result<LocationData, LocationError>)
        ensures
            r == decode_location(value@),
    {
        let v = chars_of(value);
        let n = v.len();
        let mut i: usize = 0;
        while i < n && v[i] != ','
            invariant
                n == v.len(),
                i <= n,
                forall|j: int| 0 <= j < i ==> v@[j] != ',',
            decreases n - i,
        {
            i = i + 1;
        }
        if i == n {
            assert(!exists|c: int| sole_comma(v@, c));
            return Err(LocationError::FieldCount);
        }
        let comma = i;
        i = i + 1;
        while i < n && v[i] != ','
            invariant
                n == v.len(),
                comma < i <= n,
                forall|j: int| comma < j < i ==> v@[j] != ',',
            decreases n - i,
        {
            i = i + 1;
        }
        if i < n {
            proof {
                assert forall|c: int| !sole_comma(v@, c) by {
                    if c == comma as int {
                        assert(v@[i as int] == ',');
                    } else {
                        assert(v@[comma as int] == ',');
                    }
                }
            }
            return Err(LocationError::FieldCount);
        }
        proof {
            assert(sole_comma(v@, comma as int));
            let c = choose|c: int| sole_comma(v@, c);
            assert(c == comma);
            assert(v@.take(comma as int) =~= v@.subrange(0, comma as int));
            assert(v@.skip(comma + 1) =~= v@.subrange(comma + 1, n as int));
        }
        match parse_number_in(&v, 0, comma) {
            Err(e) => Err(LocationError::X(e)),
            Ok(x) => match parse_number_in(&v, comma + 1, n) {
                Err(e) => Err(LocationError::Y(e)),
                Ok(y) => Ok(LocationData { x, y }),
            },
        }
    }

    /// The location as a message shows it.
    pub fn describe(&self) -> (s: String)
        ensures
            s@ == self.display_text(),
    {
        let mut s = String::new();
        s.append("x: ");
        push_decimal(&mut s, self.x as u64);
        s.append(", y: ");
        push_decimal(&mut s, self.y as u64);
        assert(s@ =~= self.display_text());
        s
    }

    /// Encoding a location and decoding the text gives the location back.
    pub proof fn lemma_decode_encode(self)
        ensures
            decode_location(self.text()) == Ok::<LocationData, LocationError>(self),
    {
        let a = decimal_text(self.x as nat);
        let b = decimal_text(self.y as nat);
        let s = self.text();
        let c = a.len() as int;
        lemma_decimal_text_value(self.x as nat);
        lemma_decimal_text_value(self.y as nat);
        assert(s.len() == a.len() + 1 + b.len());
        assert(s[c] == ',');
        assert forall|j: int| 0 <= j < s.len() && j != c implies s[j] != ',' by {
            if j < c {
                assert(s[j] == a[j]);
                assert(is_digit(a[j]));
            } else {
                assert(s[j] == b[j - c - 1]);
                assert(is_digit(b[j - c - 1]));
            }
        }
        assert(sole_comma(s, c));
        let i = choose|i: int| sole_comma(s, i);
        assert(i == c);
        assert(s.take(c) =~= a);
        assert(s.skip(c + 1) =~= b);
        lemma_parse_decimal_text(self.x);
        lemma_parse_decimal_text(self.y);
    }
}

impl LocationError {
    /// The text of the error.
    pub open spec fn message_text(self) -> Seq<char> {
        match self {
            LocationError::FieldCount => "a string with two comma separated integers with the format x,y"@,
            LocationError::X(e) => e.message_text(),
            LocationError::Y(e) => e.message_text(),
        }
    }

    /// The error in words.
    pub fn message(&self) -> (s: String)
        ensures
            s@ == self.message_text(),
    {
        match self {
            LocationError::FieldCount => String::from_str(
                "a string with two comma separated integers with the format x,y",
            ),
            LocationError::X(e) => e.message(),
            LocationError::Y(e) => e.message(),
        }
    }
}

/// The kind of a base tile.
#[derive(Debug, Copy, Clone, Hash, PartialEq, Eq, Structural)]
pub enum TileTypeData {
    Dirt,
    Stone,
    Water,
}

/// Whether `index` is the texture index of a base tile.
pub open spec fn is_tile_texture_index(index: u32) -> bool {
    index == 0 || index == 1 || index == 3
}

impl TileTypeData {
    /// Where the tile's picture lies in the texture map.
    pub open spec fn index(self) -> u32 {
        match self {
            TileTypeData::Dirt => 0,
            TileTypeData::Stone => 1,
            TileTypeData::Water => 3,
        }
    }

    /// Whether touching the tile kills the player.
    pub open spec fn hazardous(self) -> bool {
        self == TileTypeData::Water
    }

    /// Where the tile's picture lies in the texture map: 0 for dirt, 1 for
    /// stone, 3 for water.
    pub fn texture_index(&self) -> (r: u32)
        ensures
            r == self.index(),
            is_tile_texture_index(r),
    {
        match self {
            Self::Dirt => 0,
            Self::Stone => 1,
            Self::Water => 3,
        }
    }

    /// The tile kind with the given texture index. An index of no tile kind
    /// is a fault in the content, never an input.
    pub fn from_texture_index(texture_index: u32) -> (r: Self)
        requires
            is_tile_texture_index(texture_index),
        ensures
            r.index() == texture_index,
    {
        match texture_index {
            0 => Self::Dirt,
            1 => Self::Stone,
            _ => Self::Water,
        }
    }

    /// The tile kind with the given texture index, if there is one.
    pub fn try_from_texture_index(texture_index: u32) -> (r: Option<Self>)
        ensures
            is_tile_texture_index(texture_index) ==> r is Some && r->0.index() == texture_index,
            !is_tile_texture_index(texture_index) ==> r is None,
    {
        match texture_index {
            0 => Some(Self::Dirt),
            1 => Some(Self::Stone),
            3 => Some(Self::Water),
            _ => None,
        }
    }

    /// Whether touching the tile kills the player: water does.
    pub fn is_hazard(&self) -> (r: bool)
        ensures
            r == self.hazardous(),
    {
        match self {
            Self::Water => true,
            _ => false,
        }
    }

    /// Tile kinds and their texture indices match one to one.
    pub proof fn lemma_texture_index_bijection(a: TileTypeData, b: TileTypeData)
        ensures
            is_tile_texture_index(a.index()),
            a.index() == b.index() <==> a == b,
    {
    }
}

/// What lies on top of a base tile.
#[derive(Debug, Copy, Clone, Hash, PartialEq, Eq, Structural)]
pub enum OverlayData {
    Grass,
}

/// Whether `index` is the texture index of an overlay.
pub open spec fn is_overlay_texture_index(index: u32) -> bool {
    index == 2
}

impl OverlayData {
    /// Where the overlay's picture lies in the texture map.
    pub open spec fn index(self) -> u32 {
        match self {
            OverlayData::Grass => 2,
        }
    }

    /// Where the overlay's picture lies in the texture map: 2 for grass.
    pub fn texture_index(&self) -> (r: u32)
        ensures
            r == self.index(),
            is_overlay_texture_index(r),
    {
        match self {
            Self::Grass => 2,
        }
    }

    /// The overlay with the given texture index. An index of no overlay is a
    /// fault in the content, never an input.
    pub fn from_texture_index(texture_index: u32) -> (r: Self)
        requires
            is_overlay_texture_index(texture_index),
        ensures
            r.index() == texture_index,
    {
        Self::Grass
    }

    /// The overlay with the given texture index, if there is one.
    pub fn try_from_texture_index(texture_index: u32) -> (r: Option<Self>)
        ensures
            is_overlay_texture_index(texture_index) ==> r is Some && r->0.index()
                == texture_index,
            !is_overlay_texture_index(texture_index) ==> r is None,
    {
        match texture_index {
            2 => Some(Self::Grass),
            _ => None,
        }
    }

    /// Overlays and their texture indices match one to one, and no overlay
    /// shares its index with a base tile.
    pub proof fn lemma_texture_index_bijection(a: OverlayData, b: OverlayData, t: TileTypeData)
        ensures
            is_overlay_texture_index(a.index()),
            a.index() == b.index() <==> a == b,
            a.index() != t.index(),
    {
    }
}

/// One tile of a level.
#[derive(Debug, Copy, Clone, Hash, PartialEq, Eq, Structural)]
pub struct TileData {
    pub tile_type: TileTypeData,
    pub off: LocationData,
    pub over: Option<OverlayData>,
}

/// A level: where the player starts, and its tiles in file order.
#[derive(Debug, Clone, Hash, PartialEq, Eq)]
pub struct LevelData {
    pub spawn_location: LocationData,
    pub tiles: Vec<TileData>,
}

/// The locations of `tiles`, in order.
pub open spec fn locations_of(tiles: Seq<TileData>) -> Seq<LocationData> {
    tiles.map_values(|t: TileData| t.off)
}

/// The record at `j` lies where an earlier record already lies.
pub open spec fn repeats_earlier(tiles: Seq<TileData>, j: int) -> bool {
    exists|i: int| 0 <= i < j && #[trigger] tiles[i].off == tiles[j].off
}

/// No two records of `tiles` share a location.
pub open spec fn unique_locations(tiles: Seq<TileData>) -> bool {
    forall|i: int, j: int|
        0 <= i < j < tiles.len() ==> #[trigger] tiles[i].off != #[trigger] tiles[j].off
}

/// What a location maps to once the first `n` records of `tiles` are entered
/// in order, a later record replacing an earlier one at the same place.
pub open spec fn lookup_of(tiles: Seq<TileData>, n: int) -> Map<(u32, u32), TileTypeData>
    decreases n,
{
    if n <= 0 {
        Map::empty()
    } else {
        lookup_of(tiles, n - 1).insert(tiles[n - 1].off.key(), tiles[n - 1].tile_type)
    }
}

/// The set of the locations of `tiles`.
pub open spec fn location_set(tiles: Seq<TileData>) -> Set<(u32, u32)> {
    Set::new(|k: (u32, u32)| exists|i: int| 0 <= i < tiles.len() && #[trigger] tiles[i].off.key() == k)
}

impl LevelData {
    /// No two tiles of the level share a location.
    pub open spec fn well_formed(self) -> bool {
        unique_locations(self.tiles@)
    }
}

} // verus!
