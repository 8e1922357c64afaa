use arcade_shooter::components::Velocity;
use arcade_shooter::player::{
    player_keyboard_event_system, player_shoot_system, spawn_player_system, Player, FIRE_DELAY,
    MISSILE_SPREAD,
};
use arcade_shooter::{
    player_action, shoot_action, FacingDirection, Game, KeyInput, Location, WinSize, FLOOR_POSITION,
    LEFT_WALL, MILLI, RIGHT_WALL, SHOOT_OFFSET, TILE_MOVE_SIZE,
};

fn no_keys() -> KeyInput {
    KeyInput { left: false, right: false, up: false, down: false, space: false }
}

#[test]
fn new_player_starts_at_the_left_wall_facing_right() {
    let p = Player::new();
    assert!(matches!(p.direction, FacingDirection::Right));
    assert_eq!(p.entity, None);
    assert_eq!(p.fire_delay, 0);
    assert_eq!(p.missile_multiplier, 1);
    assert_eq!(p.location, Location { x: LEFT_WALL, y: FLOOR_POSITION + 15 * MILLI, z: 0 });
}

#[test]
fn player_action_walks_one_tile_right() {
    let mut p = Player::new();
    p.set_location(Some(0), Some(0));
    let keys = KeyInput { right: true, ..no_keys() };
    let moved = player_action(&mut p, keys);
    assert_eq!(moved, Some(Location { x: 0, y: 0, z: 0 }));
    assert_eq!(p.location, Location { x: TILE_MOVE_SIZE, y: 0, z: 0 });
    assert!(matches!(p.direction, FacingDirection::Right));
}

#[test]
fn player_action_stops_at_the_right_wall() {
    let mut p = Player::new();
    p.set_direction(FacingDirection::Left);
    p.set_location(Some(RIGHT_WALL - TILE_MOVE_SIZE), Some(0));
    let keys = KeyInput { right: true, ..no_keys() };
    let moved = player_action(&mut p, keys);
    assert_eq!(moved, None);
    assert_eq!(p.location, Location { x: RIGHT_WALL - TILE_MOVE_SIZE, y: 0, z: 0 });
    // the player still turns toward the wall
    assert!(matches!(p.direction, FacingDirection::Right));
}

#[test]
fn player_action_without_keys_changes_nothing() {
    let mut p = Player::new();
    p.set_direction(FacingDirection::Down);
    let before = p.location;
    let moved = player_action(&mut p, no_keys());
    assert_eq!(moved, None);
    assert_eq!(p.location, before);
    assert!(matches!(p.direction, FacingDirection::Down));
}

#[test]
fn player_action_prefers_right_over_down() {
    let mut p = Player::new();
    p.set_location(Some(0), Some(0));
    let keys = KeyInput { right: true, down: true, ..no_keys() };
    player_action(&mut p, keys);
    assert_eq!(p.location, Location { x: TILE_MOVE_SIZE, y: 0, z: 0 });
    assert!(matches!(p.direction, FacingDirection::Right));
}

#[test]
fn set_location_keeps_an_axis_given_none() {
    let mut p = Player::new();
    p.set_location(Some(7), Some(9));
    p.set_location(None, Some(11));
    assert_eq!(p.location, Location { x: 7, y: 11, z: 0 });
    p.set_location(Some(13), None);
    assert_eq!(p.location, Location { x: 13, y: 11, z: 0 });
}

#[test]
fn fire_delay_never_drops_below_zero() {
    let mut p = Player::new();
    assert_eq!(p.fire_delay(), 0);
    p.reduce_fire_delay();
    assert_eq!(p.fire_delay(), 0);
}

#[test]
fn missile_multiplier_grows_and_resets() {
    let mut p = Player::new();
    p.increase_missile_multiplier(3);
    assert_eq!(p.missile_multiplier, 4);
    p.reset_missile_multiplier();
    assert_eq!(p.missile_multiplier, 1);
}

#[test]
fn shoot_action_places_a_missile_ahead_of_the_player() {
    let mut p = Player::new();
    p.set_direction(FacingDirection::Up);
    p.set_location(Some(100), Some(200));
    let keys = KeyInput { space: true, ..no_keys() };
    let missile = shoot_action(&p, keys).unwrap();
    assert_eq!(missile.location, Location { x: 100 + SHOOT_OFFSET, y: 200, z: 0 });
    assert!(matches!(missile.direction, FacingDirection::Up));
}

#[test]
fn shoot_action_without_the_fire_key_does_nothing() {
    let p = Player::new();
    assert!(shoot_action(&p, no_keys()).is_none());
}

#[test]
fn keyboard_sets_velocity_and_facing() {
    let mut p = Player::new();
    let mut v = Velocity { x: 0, y: 0 };
    let keys = KeyInput { left: true, up: true, ..no_keys() };
    player_keyboard_event_system(&mut p, &mut v, keys);
    assert_eq!(v, Velocity { x: -MILLI, y: MILLI });
    assert!(matches!(p.direction, FacingDirection::Up));
}

#[test]
fn keyboard_without_keys_zeroes_velocity_and_keeps_facing() {
    let mut p = Player::new();
    p.set_direction(FacingDirection::Left);
    let mut v = Velocity { x: 5, y: 5 };
    player_keyboard_event_system(&mut p, &mut v, no_keys());
    assert_eq!(v, Velocity { x: 0, y: 0 });
    assert!(matches!(p.direction, FacingDirection::Left));
}

#[test]
fn a_vertical_volley_fans_out_around_the_player() {
    let mut p = Player::new();
    p.set_direction(FacingDirection::Up);
    p.increase_missile_multiplier(1);
    let keys = KeyInput { space: true, ..no_keys() };
    let t = Location { x: 0, y: 0, z: 0 };
    let missiles = player_shoot_system(&mut p, keys, Some(t));
    assert_eq!(p.fire_delay, FIRE_DELAY);
    assert_eq!(missiles.len(), 4);
    assert_eq!(missiles[0].location, Location { x: MISSILE_SPREAD, y: 0, z: 0 });
    assert_eq!(missiles[1].location, Location { x: -MISSILE_SPREAD, y: 0, z: 0 });
    assert_eq!(missiles[2].location, Location { x: MISSILE_SPREAD, y: MISSILE_SPREAD, z: 0 });
    assert_eq!(missiles[3].location, Location { x: -MISSILE_SPREAD, y: MISSILE_SPREAD, z: 0 });
    for m in &missiles {
        assert!(matches!(m.direction, FacingDirection::Up));
    }
}

#[test]
fn a_horizontal_volley_fans_out_along_the_row() {
    let mut p = Player::new();
    p.set_direction(FacingDirection::Right);
    p.increase_missile_multiplier(1);
    let keys = KeyInput { space: true, ..no_keys() };
    let t = Location { x: 100, y: 200, z: 0 };
    let missiles = player_shoot_system(&mut p, keys, Some(t));
    assert_eq!(missiles.len(), 4);
    assert_eq!(missiles[0].location, Location { x: 100, y: 200 + MISSILE_SPREAD, z: 0 });
    assert_eq!(missiles[1].location, Location { x: 100, y: 200 - MISSILE_SPREAD, z: 0 });
    assert_eq!(missiles[2].location, Location { x: 100 + MISSILE_SPREAD, y: 200 + MISSILE_SPREAD, z: 0 });
    assert_eq!(missiles[3].location, Location { x: 100 + MISSILE_SPREAD, y: 200 - MISSILE_SPREAD, z: 0 });
}

#[test]
fn the_cooldown_blocks_the_volley_and_ticks_down() {
    let mut p = Player::new();
    p.increase_missile_multiplier(1);
    let keys = KeyInput { space: true, ..no_keys() };
    let t = Location { x: 0, y: 0, z: 0 };
    // wind the cooldown up with one volley
    let first = player_shoot_system(&mut p, keys, Some(t));
    assert_eq!(first.len(), 4);
    assert_eq!(p.fire_delay, FIRE_DELAY);
    // the next frame only ticks the cooldown
    let second = player_shoot_system(&mut p, keys, Some(t));
    assert!(second.is_empty());
    assert_eq!(p.fire_delay, FIRE_DELAY - 1);
}

#[test]
fn without_the_fire_key_no_volley_leaves() {
    let mut p = Player::new();
    let t = Location { x: 0, y: 0, z: 0 };
    let missiles = player_shoot_system(&mut p, no_keys(), Some(t));
    assert!(missiles.is_empty());
    assert_eq!(p.fire_delay, 0);
}

#[test]
fn firing_with_no_sprite_on_the_board_still_winds_the_cooldown() {
    let mut p = Player::new();
    let keys = KeyInput { space: true, ..no_keys() };
    let missiles = player_shoot_system(&mut p, keys, None);
    assert!(missiles.is_empty());
    assert_eq!(p.fire_delay, FIRE_DELAY);
}

#[test]
fn spawning_the_player_resets_it_inside_the_window() {
    let mut game = Game::new();
    game.player.increase_missile_multiplier(5);
    let win = WinSize { w: 1200 * MILLI, h: 800 * MILLI };
    let spawn = spawn_player_system(&mut game, &win);
    assert_eq!(game.player.missile_multiplier, 1);
    assert_eq!(game.player.fire_delay, 0);
    assert_eq!(spawn.velocity, Velocity { x: 50 * MILLI, y: 3 * MILLI });
    assert!(!spawn.movable.auto_despawn);
    assert!(-600 * MILLI <= spawn.location.x && spawn.location.x < 600 * MILLI);
    assert!(-400 * MILLI <= spawn.location.y && spawn.location.y < 400 * MILLI);
    assert_eq!(spawn.location.z, 0);
}
