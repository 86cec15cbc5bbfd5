use dont_chill_out::player::direct::{
    check_player_on_ground, move_player, GROUND_CAST_OFFSET, MID_AIR_SPEED_DEGRADATION,
    PLAYER_MAX_SPEED,
};
use dont_chill_out::player::movement::{ControlInput, ShapeHit, JUMP_POWER};
use dont_chill_out::player::{spawn_player, Player, Velocity};

const NONE: ControlInput = ControlInput { left: false, right: false, jump: false };

fn on_ground() -> Player {
    let mut player = spawn_player().player;
    player.on_ground = true;
    player
}

#[test]
fn plain_constants() {
    assert_eq!(PLAYER_MAX_SPEED, 60_000_000);
    assert_eq!(MID_AIR_SPEED_DEGRADATION, 100_000_000);
    assert_eq!(GROUND_CAST_OFFSET, 200_000);
}

#[test]
fn ground_is_where_the_sweep_touches_at_once() {
    let mut player = spawn_player().player;
    check_player_on_ground(&mut player, Some(ShapeHit { time_of_impact: 0 }));
    assert!(player.on_ground);
    check_player_on_ground(&mut player, None);
    assert!(player.on_ground);
    check_player_on_ground(&mut player, Some(ShapeHit { time_of_impact: 1 }));
    assert!(!player.on_ground);
    check_player_on_ground(&mut player, None);
    assert_eq!(player, spawn_player().player);
}

#[test]
fn on_the_ground_keys_set_the_speed() {
    let player = on_ground();
    let mut velocity = Velocity { x: 5, y: 7 };
    move_player(&player, &mut velocity, ControlInput { left: true, ..NONE }, 16_667);
    assert_eq!(velocity, Velocity { x: -60_000_000, y: 7 });
    move_player(&player, &mut velocity, ControlInput { right: true, ..NONE }, 16_667);
    assert_eq!(velocity, Velocity { x: 60_000_000, y: 7 });
    move_player(&player, &mut velocity, ControlInput { left: true, right: true, jump: false }, 16_667);
    assert_eq!(velocity, Velocity { x: 60_000_000, y: 7 });
    move_player(&player, &mut velocity, NONE, 16_667);
    assert_eq!(velocity, Velocity { x: 60_000_000, y: 7 });
    move_player(&player, &mut velocity, ControlInput { jump: true, ..NONE }, 16_667);
    assert_eq!(velocity, Velocity { x: 60_000_000, y: JUMP_POWER });
}

#[test]
fn in_the_air_keys_only_work_against_the_flight() {
    let player = spawn_player().player;
    let mut velocity = Velocity { x: 10_000_000, y: 3 };
    move_player(&player, &mut velocity, ControlInput { right: true, jump: true, left: false }, 100_000);
    assert_eq!(velocity, Velocity { x: 10_000_000, y: 3 });
    move_player(&player, &mut velocity, ControlInput { left: true, ..NONE }, 100_000);
    assert_eq!(velocity, Velocity { x: 0, y: 3 });
    move_player(&player, &mut velocity, ControlInput { left: true, ..NONE }, 100_000);
    assert_eq!(velocity, Velocity { x: 0, y: 3 });
    move_player(&player, &mut velocity, ControlInput { right: true, ..NONE }, 16_667);
    assert_eq!(velocity, Velocity { x: 1_666_700, y: 3 });
    velocity.x = -5_000_000;
    move_player(&player, &mut velocity, ControlInput { right: true, left: true, jump: false }, 10_000);
    assert_eq!(velocity, Velocity { x: -4_000_000, y: 3 });
}

#[test]
fn speed_stays_within_what_it_can_hold() {
    let player = spawn_player().player;
    let mut velocity = Velocity { x: 1, y: 0 };
    move_player(&player, &mut velocity, ControlInput { left: true, ..NONE }, u64::MAX);
    assert_eq!(velocity.x, i64::MIN);
    let mut velocity = Velocity { x: i64::MIN, y: 0 };
    move_player(&player, &mut velocity, ControlInput { right: true, ..NONE }, u64::MAX);
    assert_eq!(velocity.x, i64::MAX);
}
