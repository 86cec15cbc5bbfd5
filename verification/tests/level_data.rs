use dont_chill_out::levels::data::{LevelData, LocationData, OverlayData, TileData, TileTypeData};

#[test]
fn tile_texture_indices_are_fixed() {
    assert_eq!(TileTypeData::Dirt.texture_index(), 0);
    assert_eq!(TileTypeData::Stone.texture_index(), 1);
    assert_eq!(TileTypeData::Water.texture_index(), 3);
    assert_eq!(OverlayData::Grass.texture_index(), 2);
}

#[test]
fn tile_texture_index_round_trip() {
    for kind in [TileTypeData::Dirt, TileTypeData::Stone, TileTypeData::Water] {
        assert_eq!(TileTypeData::from_texture_index(kind.texture_index()), kind);
        assert_eq!(TileTypeData::try_from_texture_index(kind.texture_index()), Some(kind));
    }
    for index in [0u32, 1, 3] {
        assert_eq!(TileTypeData::from_texture_index(index).texture_index(), index);
    }
}

#[test]
fn overlay_texture_index_round_trip() {
    assert_eq!(OverlayData::from_texture_index(2), OverlayData::Grass);
    assert_eq!(OverlayData::try_from_texture_index(2), Some(OverlayData::Grass));
    assert_eq!(OverlayData::from_texture_index(OverlayData::Grass.texture_index()), OverlayData::Grass);
}

#[test]
fn unknown_texture_indices_have_no_kind() {
    assert_eq!(TileTypeData::try_from_texture_index(2), None);
    assert_eq!(TileTypeData::try_from_texture_index(4), None);
    assert_eq!(TileTypeData::try_from_texture_index(u32::MAX), None);
    assert_eq!(OverlayData::try_from_texture_index(0), None);
    assert_eq!(OverlayData::try_from_texture_index(1), None);
    assert_eq!(OverlayData::try_from_texture_index(3), None);
}

#[test]
fn only_water_is_a_hazard() {
    assert!(TileTypeData::Water.is_hazard());
    assert!(!TileTypeData::Dirt.is_hazard());
    assert!(!TileTypeData::Stone.is_hazard());
}

#[test]
fn location_new_keeps_both_coordinates() {
    let location = LocationData::new(3, 7);
    assert_eq!(location.x, 3);
    assert_eq!(location.y, 7);
    assert_ne!(LocationData::new(3, 7), LocationData::new(7, 3));
}

#[test]
fn level_data_holds_tiles_in_order() {
    let level = LevelData {
        spawn_location: LocationData::new(1, 2),
        tiles: vec![
            TileData { tile_type: TileTypeData::Dirt, off: LocationData::new(0, 0), over: Some(OverlayData::Grass) },
            TileData { tile_type: TileTypeData::Water, off: LocationData::new(1, 0), over: None },
        ],
    };
    assert_eq!(level.tiles[0].off, LocationData::new(0, 0));
    assert_eq!(level.tiles[1].tile_type, TileTypeData::Water);
    assert_eq!(level.clone(), level);
}
