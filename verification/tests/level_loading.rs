use dont_chill_out::levels::data::{LevelData, LocationData, OverlayData, TileData, TileTypeData};
use dont_chill_out::levels::level_loader::{
    level_asset_path, load_level, set_failed_level, set_loaded_level, InvalidLevelError,
    InvalidLevelErrorReason, LevelDataHandleRes, LevelDataLoadedEvent, LevelJSONAssetLoader,
    LevelJSONAssetLoaderError,
};
use dont_chill_out::levels::LoadLevelEvent;

fn tile(kind: TileTypeData, x: u32, y: u32) -> TileData {
    TileData { tile_type: kind, off: LocationData::new(x, y), over: None }
}

fn level(tiles: Vec<TileData>) -> LevelData {
    LevelData { spawn_location: LocationData::new(1, 1), tiles }
}

#[test]
fn load_accepts_unique_locations() {
    let data = level(vec![
        tile(TileTypeData::Dirt, 0, 0),
        tile(TileTypeData::Stone, 1, 0),
        tile(TileTypeData::Water, 0, 1),
        TileData { tile_type: TileTypeData::Dirt, off: LocationData::new(5, 5), over: Some(OverlayData::Grass) },
    ]);
    assert_eq!(LevelJSONAssetLoader.load(data.clone()), Ok(data));
}

#[test]
fn load_accepts_empty_level() {
    let data = level(vec![]);
    assert_eq!(LevelJSONAssetLoader.load(data.clone()), Ok(data));
}

#[test]
fn load_rejects_duplicate_location() {
    let data = level(vec![
        tile(TileTypeData::Dirt, 0, 0),
        tile(TileTypeData::Stone, 4, 2),
        tile(TileTypeData::Water, 4, 2),
    ]);
    assert_eq!(
        LevelJSONAssetLoader.load(data),
        Err(InvalidLevelError::new(InvalidLevelErrorReason::DuplicateTileLocation(LocationData::new(4, 2))))
    );
}

#[test]
fn load_reports_first_duplicate_in_file_order() {
    let data = level(vec![
        tile(TileTypeData::Dirt, 9, 9),
        tile(TileTypeData::Dirt, 1, 1),
        tile(TileTypeData::Dirt, 2, 2),
        tile(TileTypeData::Dirt, 2, 2),
        tile(TileTypeData::Dirt, 1, 1),
        tile(TileTypeData::Dirt, 9, 9),
    ]);
    let error = LevelJSONAssetLoader.load(data).unwrap_err();
    assert_eq!(error.reason, InvalidLevelErrorReason::DuplicateTileLocation(LocationData::new(2, 2)));
}

#[test]
fn load_tells_swapped_coordinates_apart() {
    let data = level(vec![tile(TileTypeData::Dirt, 1, 2), tile(TileTypeData::Dirt, 2, 1)]);
    assert!(LevelJSONAssetLoader.load(data).is_ok());
}

#[test]
fn load_rejects_adjacent_duplicates_at_the_start() {
    let data = level(vec![tile(TileTypeData::Dirt, 0, 0), tile(TileTypeData::Water, 0, 0)]);
    let error = LevelJSONAssetLoader.load(data).unwrap_err();
    assert_eq!(error.reason, InvalidLevelErrorReason::DuplicateTileLocation(LocationData::new(0, 0)));
}

#[test]
fn invalid_level_error_message() {
    let error = InvalidLevelError::new(InvalidLevelErrorReason::DuplicateTileLocation(LocationData::new(4, 12)));
    assert_eq!(error.message(), "Duplicate tile location at: x: 4, y: 12");
}

#[test]
fn only_the_level_extension_is_accepted() {
    let loader = LevelJSONAssetLoader;
    assert_eq!(loader.extensions(), vec!["lvl"]);
    assert!(loader.accepts("lvl"));
    assert!(!loader.accepts("json"));
    assert!(!loader.accepts("LVL"));
    assert!(!loader.accepts(""));
    assert!(!loader.accepts("lvl.json"));
    assert!(!loader.accepts("lv"));
}

#[test]
fn level_paths_are_numbered() {
    assert_eq!(level_asset_path(0), "level/level0.lvl");
    assert_eq!(level_asset_path(5), "level/level5.lvl");
    assert_eq!(level_asset_path(999), "level/level999.lvl");
    assert_eq!(level_asset_path(u32::MAX), "level/level4294967295.lvl");
}

#[test]
fn load_request_gets_a_ticket_and_a_path() {
    let mut handle = LevelDataHandleRes::default();
    assert_eq!(load_level(&mut handle, None), None);
    assert_eq!(handle, LevelDataHandleRes::default());

    let request = load_level(&mut handle, Some(LoadLevelEvent(3))).unwrap();
    assert_eq!(request.ticket, 0);
    assert_eq!(request.level, 3);
    assert_eq!(request.path, "level/level3.lvl");
    assert_eq!(handle, LevelDataHandleRes { active: None, pending: Some(0), issued: 1 });

    assert_eq!(set_loaded_level(&mut handle, 0), Some(LevelDataLoadedEvent(0)));
    assert_eq!(handle, LevelDataHandleRes { active: Some(0), pending: None, issued: 1 });
}

#[test]
fn last_load_request_wins() {
    let mut handle = LevelDataHandleRes::default();
    let first = load_level(&mut handle, Some(LoadLevelEvent(1))).unwrap();
    let second = load_level(&mut handle, Some(LoadLevelEvent(2))).unwrap();
    assert_ne!(first.ticket, second.ticket);

    let before = handle;
    assert_eq!(set_loaded_level(&mut handle, first.ticket), None);
    assert_eq!(handle, before);

    assert_eq!(set_loaded_level(&mut handle, second.ticket), Some(LevelDataLoadedEvent(second.ticket)));
    assert_eq!(handle.active, Some(second.ticket));
    assert_eq!(handle.pending, None);

    assert_eq!(set_loaded_level(&mut handle, second.ticket), None);
}

#[test]
fn failed_load_keeps_the_level_in_use() {
    let mut handle = LevelDataHandleRes::default();
    let first = load_level(&mut handle, Some(LoadLevelEvent(0))).unwrap();
    set_loaded_level(&mut handle, first.ticket);
    let second = load_level(&mut handle, Some(LoadLevelEvent(1))).unwrap();

    set_failed_level(&mut handle, first.ticket);
    assert_eq!(handle.pending, Some(second.ticket));

    set_failed_level(&mut handle, second.ticket);
    assert_eq!(handle.active, Some(first.ticket));
    assert_eq!(handle.pending, None);
    assert_eq!(set_loaded_level(&mut handle, second.ticket), None);
    assert_eq!(handle.active, Some(first.ticket));
}

#[test]
fn tickets_start_again_after_the_last() {
    let mut handle = LevelDataHandleRes { active: None, pending: None, issued: u64::MAX };
    let request = load_level(&mut handle, Some(LoadLevelEvent(0))).unwrap();
    assert_eq!(request.ticket, u64::MAX);
    assert_eq!(handle.issued, 0);
}

#[test]
fn parse_failure_and_invalid_level_are_different_errors() {
    let loader = LevelJSONAssetLoader;
    let parse = loader.load_parsed(Err(String::from("expected value at line 1 column 1")));
    assert_eq!(
        parse,
        Err(LevelJSONAssetLoaderError::SerdeParse(String::from("expected value at line 1 column 1")))
    );
    let invalid = loader.load_parsed(Ok(level(vec![tile(TileTypeData::Dirt, 3, 4), tile(TileTypeData::Dirt, 3, 4)])));
    assert_eq!(
        invalid,
        Err(LevelJSONAssetLoaderError::InvalidLevel(InvalidLevelError::new(
            InvalidLevelErrorReason::DuplicateTileLocation(LocationData::new(3, 4))
        )))
    );
    let good = level(vec![tile(TileTypeData::Dirt, 3, 4)]);
    assert_eq!(loader.load_parsed(Ok(good.clone())), Ok(good));
}

#[test]
fn loader_error_messages() {
    assert_eq!(
        LevelJSONAssetLoaderError::SerdeParse(String::from("EOF while parsing")).message(),
        "Could not parse json: EOF while parsing"
    );
    assert_eq!(
        LevelJSONAssetLoaderError::IO(String::from("file not found")).message(),
        "Could not read file: file not found"
    );
    assert_eq!(
        LevelJSONAssetLoaderError::InvalidLevel(InvalidLevelError::new(
            InvalidLevelErrorReason::DuplicateTileLocation(LocationData::new(0, 9))
        ))
        .message(),
        "Level data was invalid: Duplicate tile location at: x: 0, y: 9"
    );
}
