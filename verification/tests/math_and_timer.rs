use dont_chill_out::levels::data::LocationData;
use dont_chill_out::math::{
    mul_fixed, scale_fixed, tile_pos_to_world_pos, tile_pos_to_world_pos_2d, world_pos_to_tile_pos,
    FixedVec2, FixedVec3, UNIT,
};
use dont_chill_out::timer::{end_timer, start_timer, StartGameEvent, StartTime};
use dont_chill_out::win::WinGameEvent;

#[test]
fn tiles_are_sixteen_units_apart() {
    assert_eq!(UNIT, 1_000_000);
    assert_eq!(tile_pos_to_world_pos_2d(LocationData::new(0, 0)), FixedVec2 { x: 0, y: 0 });
    assert_eq!(tile_pos_to_world_pos_2d(LocationData::new(3, 7)), FixedVec2 { x: 48_000_000, y: 112_000_000 });
    assert_eq!(
        tile_pos_to_world_pos(LocationData::new(1, 2), -9),
        FixedVec3 { x: 16_000_000, y: 32_000_000, z: -9 }
    );
    assert_eq!(
        tile_pos_to_world_pos_2d(LocationData::new(u32::MAX, u32::MAX)),
        FixedVec2 { x: 68_719_476_720_000_000, y: 68_719_476_720_000_000 }
    );
}

#[test]
fn points_belong_to_the_nearest_tile() {
    let at = |x: i64, y: i64| world_pos_to_tile_pos(FixedVec3 { x, y, z: 0 });
    assert_eq!(at(0, 0), LocationData::new(0, 0));
    assert_eq!(at(7_999_999, 8_000_000), LocationData::new(0, 1));
    assert_eq!(at(-8_000_000, -8_000_001), LocationData::new(0, 0));
    assert_eq!(at(-1, i64::MIN), LocationData::new(0, 0));
    assert_eq!(at(48_000_000, 112_000_000), LocationData::new(3, 7));
    assert_eq!(at(i64::MAX, 68_719_476_720_000_000), LocationData::new(u32::MAX, u32::MAX));
    assert_eq!(at(68_719_476_712_000_000 - 1, 0), LocationData::new(u32::MAX - 1, 0));
}

#[test]
fn tile_round_trip() {
    for x in [0u32, 1, 2, 31, 32, 1000, u32::MAX] {
        for y in [0u32, 5, u32::MAX - 1] {
            let tile = LocationData::new(x, y);
            assert_eq!(world_pos_to_tile_pos(tile_pos_to_world_pos(tile, 3)), tile);
        }
    }
}

#[test]
fn fixed_products_round_towards_zero() {
    assert_eq!(mul_fixed(320_000_000, 16_667), 5_333_440);
    assert_eq!(mul_fixed(-320_000_000, 16_667), -5_333_440);
    assert_eq!(mul_fixed(1, 999_999), 0);
    assert_eq!(mul_fixed(-1, 999_999), 0);
    assert_eq!(mul_fixed(-1, 1_000_000), -1);
    assert_eq!(mul_fixed(3, 1_500_000), 4);
    assert_eq!(mul_fixed(-3, 1_500_000), -4);
    assert_eq!(mul_fixed(i64::MAX, u64::MAX), 170141183460469231704017187605319);
    assert_eq!(mul_fixed(i64::MIN, u64::MAX), -170141183460469231722463931679029);
    assert_eq!(scale_fixed(80_000_000, 800_000), 64_000_000);
    assert_eq!(scale_fixed(-7, 900_000), -6);
    assert_eq!(scale_fixed(i64::MIN, 1_000_000), i64::MIN);
    assert_eq!(scale_fixed(i64::MAX, 0), 0);
    assert_eq!(scale_fixed(3, 2_500_000), 7);
    assert_eq!(scale_fixed(-3, 2_500_000), -7);
    assert_eq!(scale_fixed(i64::MAX, 1_000_001), i64::MAX);
    assert_eq!(scale_fixed(i64::MIN, u64::MAX), i64::MIN);
    assert_eq!(scale_fixed(1_000_000, u64::MAX), i64::MAX);
}

#[test]
fn timer_starts_on_the_event() {
    let mut start = StartTime::default();
    start_timer(None, &mut start, 5_000_000);
    assert_eq!(start, StartTime(0));
    start_timer(Some(StartGameEvent), &mut start, 5_000_000);
    assert_eq!(start, StartTime(5_000_000));
}

#[test]
fn timer_reports_tenths() {
    let start = StartTime(1_000_000);
    assert_eq!(end_timer(None, &start, 9_000_000), None);
    let text = |end: u64| end_timer(Some(WinGameEvent), &start, end).unwrap();
    assert_eq!(text(13_340_000), "Completed in 12.3 seconds!");
    assert_eq!(text(13_350_000), "Completed in 12.4 seconds!");
    assert_eq!(text(13_000_000), "Completed in 12 seconds!");
    assert_eq!(text(13_049_999), "Completed in 12 seconds!");
    assert_eq!(text(1_000_000), "Completed in 0 seconds!");
    assert_eq!(text(1_050_000), "Completed in 0.1 seconds!");
    assert_eq!(text(999_999), "Completed in 0 seconds!");
    assert_eq!(text(0), "Completed in 0 seconds!");
    assert_eq!(
        end_timer(Some(WinGameEvent), &StartTime(0), u64::MAX).unwrap(),
        "Completed in 18446744073709.6 seconds!"
    );
}
