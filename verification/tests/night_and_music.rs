use dont_chill_out::camera::{game_start_camera, move_camera, CameraKeys, CAMERA_MOVE_SPEED};
use dont_chill_out::day_night::music::{
    day_music, fade_audio, music_for, night_music, setup_music, FadeAudioDirection, FadeStep,
    MusicFade, FADE_TIME,
};
use dont_chill_out::day_night::night::{create_shadows, Shadow, SHADOW_ALPHA};
use dont_chill_out::day_night::{change_day_night_cycle, DayNightState};
use dont_chill_out::levels::data::{LevelData, LocationData, TileData, TileTypeData};
use dont_chill_out::levels::{level_data_ready, TileLevelLoadedEvent, TileWorld};
use dont_chill_out::math::{FixedVec2, FixedVec3};
use dont_chill_out::player::respawn::PlayerFinishLevelEvent;

const UNIT: i64 = 1_000_000;

fn loaded(tiles: &[(u32, u32)]) -> TileLevelLoadedEvent {
    let level = LevelData {
        spawn_location: LocationData::new(0, 0),
        tiles: tiles
            .iter()
            .map(|(x, y)| TileData { tile_type: TileTypeData::Dirt, off: LocationData::new(*x, *y), over: None })
            .collect(),
    };
    let mut world = TileWorld { tiles: vec![] };
    level_data_ready(&mut world, Some(&level)).unwrap().tile_level_loaded
}

fn shadow(x: u32, top: u32, bottom: u32) -> Shadow {
    let len = (top - bottom + 1) as i64;
    Shadow {
        start_pos: LocationData::new(x, top),
        end_pos: LocationData::new(x, bottom),
        midpoint: FixedVec2 { x: x as i64 * 16 * UNIT, y: (top as i64 + bottom as i64) * 8 * UNIT },
        size: FixedVec2 { x: 16 * UNIT, y: len * 16 * UNIT },
    }
}

#[test]
fn no_level_no_shadows() {
    assert_eq!(create_shadows(None), vec![]);
    assert_eq!(create_shadows(Some(&loaded(&[]))), vec![]);
    assert_eq!(SHADOW_ALPHA, 400_000);
}

#[test]
fn a_tile_shades_the_free_cells_below_it() {
    let event = loaded(&[(3, 5)]);
    assert_eq!(
        create_shadows(Some(&event)),
        vec![Shadow {
            start_pos: LocationData::new(3, 4),
            end_pos: LocationData::new(3, 0),
            midpoint: FixedVec2 { x: 48 * UNIT, y: 32 * UNIT },
            size: FixedVec2 { x: 16 * UNIT, y: 80 * UNIT },
        }]
    );
}

#[test]
fn a_shadow_ends_on_the_next_tile_below() {
    let event = loaded(&[(2, 9), (2, 4), (2, 3), (2, 1)]);
    assert_eq!(create_shadows(Some(&event)), vec![shadow(2, 0, 0), shadow(2, 2, 2), shadow(2, 8, 5)]);
}

#[test]
fn tiles_on_the_bottom_row_or_on_other_tiles_cast_no_shadow() {
    let event = loaded(&[(0, 0), (1, 0), (1, 1), (1, 2)]);
    assert_eq!(create_shadows(Some(&event)), vec![]);
}

#[test]
fn shadows_come_column_by_column_from_the_bottom_up() {
    let event = loaded(&[(31, 31), (0, 2), (5, 1), (0, 31), (32, 5), (5, 32), (31, 0)]);
    assert_eq!(
        create_shadows(Some(&event)),
        vec![shadow(0, 1, 0), shadow(0, 30, 3), shadow(5, 0, 0), shadow(31, 30, 1)]
    );
}

#[test]
fn music_fades_with_the_cycle() {
    assert_eq!(FADE_TIME, 4_000_000);
    assert_eq!(setup_music(), FadeAudioDirection::Increasing);
    assert_eq!(
        night_music(),
        MusicFade { day: FadeAudioDirection::Decreasing, night: FadeAudioDirection::Increasing }
    );
    assert_eq!(
        day_music(),
        MusicFade { day: FadeAudioDirection::Increasing, night: FadeAudioDirection::Decreasing }
    );
    assert_eq!(music_for(DayNightState::Day), day_music());
    assert_eq!(music_for(DayNightState::Night), night_music());
    assert_eq!(FadeAudioDirection::Increasing.get_fade_multiplier(), 1);
    assert_eq!(FadeAudioDirection::Decreasing.get_fade_multiplier(), -1);
}

#[test]
fn a_fade_takes_four_seconds() {
    let mut volume = 0;
    let mut ticks = 0;
    loop {
        let step = fade_audio(volume, FadeAudioDirection::Increasing, 100_000);
        assert!(step.play);
        assert!(!step.pause);
        volume = step.volume;
        ticks += 1;
        if step.finished {
            break;
        }
    }
    assert_eq!(ticks, 40);
    assert_eq!(volume, UNIT);
    loop {
        let step = fade_audio(volume, FadeAudioDirection::Decreasing, 100_000);
        assert!(!step.play);
        assert_eq!(step.pause, step.finished);
        volume = step.volume;
        ticks += 1;
        if step.finished {
            break;
        }
    }
    assert_eq!(ticks, 80);
    assert_eq!(volume, 0);
}

#[test]
fn volume_stays_within_nought_and_one() {
    assert_eq!(
        fade_audio(500_000, FadeAudioDirection::Increasing, 16_667),
        FadeStep { volume: 504_166, play: true, pause: false, finished: false }
    );
    assert_eq!(
        fade_audio(500_000, FadeAudioDirection::Decreasing, 16_667),
        FadeStep { volume: 495_834, play: false, pause: false, finished: false }
    );
    assert_eq!(
        fade_audio(999_999, FadeAudioDirection::Increasing, u64::MAX),
        FadeStep { volume: UNIT, play: true, pause: false, finished: true }
    );
    assert_eq!(
        fade_audio(1, FadeAudioDirection::Decreasing, u64::MAX),
        FadeStep { volume: 0, play: false, pause: true, finished: true }
    );
    assert_eq!(fade_audio(i64::MAX, FadeAudioDirection::Increasing, 0).volume, UNIT);
    assert_eq!(fade_audio(i64::MIN, FadeAudioDirection::Decreasing, u64::MAX).volume, 0);
    assert_eq!(fade_audio(i64::MIN, FadeAudioDirection::Increasing, 3).volume, 0);
}

#[test]
fn camera_moves_by_the_keys() {
    assert_eq!(CAMERA_MOVE_SPEED, 50 * UNIT);
    let none = CameraKeys { up: false, down: false, left: false, right: false };
    assert_eq!(move_camera(none, 1_000_000), FixedVec2 { x: 0, y: 0 });
    assert_eq!(
        move_camera(CameraKeys { up: true, ..none }, 20_000),
        FixedVec2 { x: 0, y: UNIT }
    );
    assert_eq!(
        move_camera(CameraKeys { down: true, right: true, ..none }, 20_000),
        FixedVec2 { x: UNIT, y: -UNIT }
    );
    assert_eq!(
        move_camera(CameraKeys { left: true, ..none }, 16_667),
        FixedVec2 { x: -833_350, y: 0 }
    );
    assert_eq!(
        move_camera(CameraKeys { up: true, down: true, left: true, right: true }, 20_000),
        FixedVec2 { x: 0, y: 0 }
    );
    assert_eq!(
        move_camera(CameraKeys { up: true, left: true, ..none }, u64::MAX),
        FixedVec2 { x: -i64::MAX, y: i64::MAX }
    );
}

#[test]
fn camera_at_the_start_of_play() {
    assert_eq!(game_start_camera(), (FixedVec3 { x: 152 * UNIT, y: 112 * UNIT, z: 0 }, 400_000));
}

#[test]
fn the_cycle_turns_at_the_end_of_a_level() {
    let mut state = DayNightState::Day;
    assert_eq!(change_day_night_cycle(&mut state, None), None);
    assert_eq!(state, DayNightState::Day);
    assert_eq!(change_day_night_cycle(&mut state, Some(PlayerFinishLevelEvent)), Some(DayNightState::Night));
    assert_eq!(state, DayNightState::Night);
    assert_eq!(change_day_night_cycle(&mut state, Some(PlayerFinishLevelEvent)), Some(DayNightState::Day));
    assert_eq!(state, DayNightState::Day);
}
