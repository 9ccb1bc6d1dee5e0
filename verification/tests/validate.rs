use space_shooter::asteroid::Asteroid;
use space_shooter::game::Game;
use space_shooter::power_up::{PowerUp, PowerUpType};
use space_shooter::projectile::Projectile;
use space_shooter::state::GameState;
use space_shooter::validate::is_playfield;

#[test]
fn playfield_needs_room_between_the_margins() {
    assert!(is_playfield([60_000, 60_000]));
    assert!(is_playfield([4_001, 4_002]));
    assert!(!is_playfield([4_000, 60_000]));
    assert!(!is_playfield([60_000, 4_001]));
    assert!(!is_playfield([-60_000, 60_000]));
    assert!(!is_playfield([60_000, -60_000]));
    assert!(is_playfield([100_000_000_000_000, 100_000_000_000_000]));
    assert!(!is_playfield([100_000_000_000_001, 60_000]));
    assert!(!is_playfield([60_000, 100_000_000_000_001]));
    assert!(!is_playfield([i64::MAX, i64::MAX]));
    assert!(!is_playfield([i64::MIN, i64::MIN]));
}

#[test]
fn fresh_game_is_well_formed_and_stays_so() {
    let mut game = Game::new([60_000, 60_000]);
    assert!(game.is_sound());
    assert!(game.is_well_formed());
    game.asteroid_spawn_threshold = 100_000_000;
    game.apply_power_up(PowerUpType::AutoShoot);
    for tick in 1..=2_000u64 {
        assert!(game.can_update(true, 16_667, tick * 16_667));
        game.update(true, 16_667, tick * 16_667);
        assert!(game.is_well_formed());
    }
    assert!(!game.asteroids.is_empty());
}

#[test]
fn entities_out_of_their_limits_are_found() {
    let mut game = Game::new([60_000, 60_000]);
    game.projectiles.push(Projectile::new(0, 0));
    game.projectiles[0].dy = 1;
    assert!(!game.is_sound());
    game.projectiles[0].dy = 0;
    assert!(game.is_sound());
    game.projectiles[0].obj.width = 0;
    assert!(!game.is_sound());
    game.projectiles.clear();

    game.asteroids.push(Asteroid::new(0, 0));
    game.asteroids[0].rotation = 360;
    assert!(!game.is_sound());
    game.asteroids[0].rotation = 359;
    game.asteroids[0].velocity = -1;
    assert!(!game.is_sound());
    game.asteroids.clear();

    game.power_ups.push(PowerUp::new(5_000, 61_000, PowerUpType::AutoShoot));
    assert!(game.is_sound());
    game.power_ups[0].obj.y = 61_001;
    assert!(!game.is_sound());
    game.power_ups.clear();

    game.player.obj.width = 60_001;
    assert!(!game.is_sound());
    game.player.obj.width = 60_000;
    assert!(game.is_sound());

    game.spawn_asteroid_timer = u64::MAX - 1_000_000;
    assert!(game.is_sound());
    game.spawn_asteroid_timer = u64::MAX - 999_999;
    assert!(!game.is_sound());
    game.spawn_asteroid_timer = 0;
    game.asteroid_spawn_threshold = u64::MAX - 1_000_000;
    assert!(game.is_sound());
    game.asteroid_spawn_threshold = u64::MAX - 999_999;
    assert!(!game.is_sound());
}

#[test]
fn asteroid_below_the_playfield_is_fine_only_in_a_finished_game() {
    let mut game = Game::new([60_000, 60_000]);
    game.asteroids.push(Asteroid::new(0, 60_000));
    assert!(game.is_well_formed());
    game.asteroids[0].obj.y = 60_001;
    assert!(game.is_sound());
    assert!(!game.is_well_formed());
    game.state = GameState::Paused;
    assert!(!game.is_well_formed());
    game.state = GameState::GameOver;
    assert!(game.is_well_formed());
}

#[test]
fn headroom_counts_what_a_tick_can_add() {
    let mut game = Game::new([60_000, 60_000]);
    game.asteroids.push(Asteroid::new(0, 0));
    game.projectiles.push(Projectile::new(0, 30_000));
    // (1 + 4) * (1 + 1) = 10 points at most.
    game.score = u32::MAX - 10;
    assert!(game.has_headroom());
    game.score = u32::MAX - 9;
    assert!(!game.has_headroom());
    game.score = 0;
    game.asteroids_destroyed = usize::MAX - 2;
    assert!(game.has_headroom());
    game.asteroids_destroyed = usize::MAX - 1;
    assert!(!game.has_headroom());
}

#[test]
fn can_update_asks_for_nothing_of_a_game_that_does_not_run() {
    let mut game = Game::new([60_000, 60_000]);
    game.score = u32::MAX;
    assert!(!game.can_update(true, 16_667, 0));
    game.state = GameState::Paused;
    assert!(game.can_update(true, 16_667, 0));
    game.state = GameState::GameOver;
    assert!(game.can_update(true, 16_667, u64::MAX));
    game.player.obj.width = 0;
    assert!(!game.can_update(true, 16_667, 0));
}

#[test]
fn can_update_bounds_the_clock_only_under_auto_fire() {
    let mut game = Game::new([60_000, 60_000]);
    assert!(game.can_update(true, 16_667, u64::MAX));
    game.apply_power_up(PowerUpType::AutoShoot);
    assert!(game.can_update(true, 16_667, u64::MAX / 3));
    assert!(!game.can_update(true, 16_667, u64::MAX / 3 + 1));
    // Between clock ticks auto fire does not run.
    assert!(game.can_update(false, 16_667, u64::MAX));
    // In its last tick auto fire reads the plain clock.
    assert!(game.can_update(true, 7_000_000, u64::MAX));
}
