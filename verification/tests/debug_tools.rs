use dont_chill_out::debug::editor::{
    change_editor_tile, check_tiles, editor_click_tile, level_save_path, save_current_tile_map,
    toggle_editor_mode, CurrentEditorTile, EditorChange, EditorClick, EditorLayer, EditorState,
    EditorTile,
};
use dont_chill_out::debug::{
    disable_debug_state, enable_debug_state, toggle_debug_state, DebugState, DebugUpdateSet,
};
use dont_chill_out::instruction_screen::{input_check_game_state_ready, GameRunSet, GameState};
use dont_chill_out::levels::data::{LevelData, LocationData, OverlayData, TileData, TileTypeData};
use dont_chill_out::levels::level_loader::LevelJSONAssetLoader;
use dont_chill_out::math::FixedVec2;

#[test]
fn debug_state_toggles_on_the_key() {
    assert_eq!(DebugState::default(), DebugState::Off);
    assert_eq!(toggle_debug_state(DebugState::Off, true, true), Some(DebugState::On));
    assert_eq!(toggle_debug_state(DebugState::On, true, true), Some(DebugState::Off));
    assert_eq!(toggle_debug_state(DebugState::Off, false, true), None);
    assert_eq!(toggle_debug_state(DebugState::Off, true, false), None);
    assert_eq!(toggle_debug_state(DebugState::On, true, false), None);
    assert!(DebugUpdateSet.runs_in(DebugState::On));
    assert!(!DebugUpdateSet.runs_in(DebugState::Off));
    assert!(enable_debug_state());
    assert!(!disable_debug_state());
}

#[test]
fn editor_state_toggles_on_the_key() {
    assert_eq!(EditorState::default(), EditorState::Off);
    assert_eq!(toggle_editor_mode(EditorState::Off, true), Some(EditorState::On));
    assert_eq!(toggle_editor_mode(EditorState::On, true), Some(EditorState::Off));
    assert_eq!(toggle_editor_mode(EditorState::On, false), None);
}

#[test]
fn editor_tile_cycles_through_all_tiles() {
    let mut tile = CurrentEditorTile::default();
    assert_eq!(tile, CurrentEditorTile::Base(TileTypeData::Dirt));
    change_editor_tile(&mut tile, false);
    assert_eq!(tile, CurrentEditorTile::Base(TileTypeData::Dirt));
    let mut seen = vec![];
    for _ in 0..5 {
        change_editor_tile(&mut tile, true);
        seen.push(tile);
    }
    assert_eq!(
        seen,
        vec![
            CurrentEditorTile::Base(TileTypeData::Stone),
            CurrentEditorTile::Base(TileTypeData::Water),
            CurrentEditorTile::Overlay(OverlayData::Grass),
            CurrentEditorTile::Base(TileTypeData::Dirt),
            CurrentEditorTile::Base(TileTypeData::Stone),
        ]
    );
}

#[test]
fn clicks_place_and_clear() {
    let at = FixedVec2 { x: 40_000_000, y: 7_999_999 };
    let stone = CurrentEditorTile::Base(TileTypeData::Stone);
    let grass = CurrentEditorTile::Overlay(OverlayData::Grass);
    assert_eq!(editor_click_tile(false, false, at, &stone), None);
    assert_eq!(
        editor_click_tile(true, false, at, &stone),
        Some(EditorClick { layer: EditorLayer::Main, tile_pos: LocationData::new(3, 0), change: EditorChange::Place(1) })
    );
    assert_eq!(
        editor_click_tile(true, true, at, &grass),
        Some(EditorClick {
            layer: EditorLayer::Overlay,
            tile_pos: LocationData::new(3, 0),
            change: EditorChange::Place(2)
        })
    );
    assert_eq!(
        editor_click_tile(false, true, FixedVec2 { x: -50_000_000, y: 8_000_000 }, &grass),
        Some(EditorClick { layer: EditorLayer::Overlay, tile_pos: LocationData::new(0, 1), change: EditorChange::Clear })
    );
    assert_eq!(
        editor_click_tile(false, true, at, &CurrentEditorTile::Base(TileTypeData::Water)),
        Some(EditorClick { layer: EditorLayer::Main, tile_pos: LocationData::new(3, 0), change: EditorChange::Clear })
    );
}

#[test]
fn saved_level_records_every_tile() {
    let tiles = vec![
        EditorTile { tile_pos: LocationData::new(4, 1), texture_index: 3, overlay_texture_index: None },
        EditorTile { tile_pos: LocationData::new(0, 0), texture_index: 0, overlay_texture_index: Some(2) },
        EditorTile { tile_pos: LocationData::new(1, 0), texture_index: 1, overlay_texture_index: None },
    ];
    assert!(check_tiles(&tiles));
    let level = save_current_tile_map(Some(LocationData::new(2, 2)), &tiles);
    assert_eq!(
        level,
        LevelData {
            spawn_location: LocationData::new(2, 2),
            tiles: vec![
                TileData { tile_type: TileTypeData::Water, off: LocationData::new(4, 1), over: None },
                TileData { tile_type: TileTypeData::Dirt, off: LocationData::new(0, 0), over: Some(OverlayData::Grass) },
                TileData { tile_type: TileTypeData::Stone, off: LocationData::new(1, 0), over: None },
            ],
        }
    );
    assert_eq!(LevelJSONAssetLoader.load(level.clone()), Ok(level));
    let empty = save_current_tile_map(None, &vec![]);
    assert_eq!(empty, LevelData { spawn_location: LocationData::new(0, 0), tiles: vec![] });
}

#[test]
fn unknown_texture_indices_are_found() {
    let good = EditorTile { tile_pos: LocationData::new(0, 0), texture_index: 0, overlay_texture_index: Some(2) };
    assert!(check_tiles(&vec![]));
    assert!(check_tiles(&vec![good, good]));
    for bad in [
        EditorTile { texture_index: 2, ..good },
        EditorTile { texture_index: 4, ..good },
        EditorTile { overlay_texture_index: Some(0), ..good },
        EditorTile { overlay_texture_index: Some(3), ..good },
    ] {
        assert!(!check_tiles(&vec![bad]));
        assert!(!check_tiles(&vec![good, bad]));
        assert!(!check_tiles(&vec![bad, good]));
    }
}

#[test]
fn save_paths_are_numbered() {
    assert_eq!(level_save_path(0), "assets/level/level0.lvl.json");
    assert_eq!(level_save_path(12), "assets/level/level12.lvl.json");
}

#[test]
fn any_key_or_button_begins_the_play() {
    assert_eq!(GameState::default(), GameState::Menu);
    assert_eq!(input_check_game_state_ready(GameState::Menu, 0, 0), None);
    assert_eq!(input_check_game_state_ready(GameState::Menu, 1, 0), Some(GameState::Play));
    assert_eq!(input_check_game_state_ready(GameState::Menu, 0, 1), Some(GameState::Play));
    assert_eq!(input_check_game_state_ready(GameState::Menu, 3, 2), Some(GameState::Play));
    assert_eq!(input_check_game_state_ready(GameState::Play, 1, 1), None);
    assert!(GameRunSet.runs_in(GameState::Play));
    assert!(!GameRunSet.runs_in(GameState::Menu));
}
