use space_shooter::asteroid::{Asteroid, ASTEROID_SIZE, ASTEROID_SPEED};
use space_shooter::geometry::{collides, GameObject};
use space_shooter::player::{steer, Player, PLAYER_STEP};
use space_shooter::power_up::{PowerUp, PowerUpType, POWER_UP_SIZE, POWER_UP_SPEED};
use space_shooter::projectile::{Projectile, PROJECTILE_HEIGHT, PROJECTILE_SPEED, PROJECTILE_WIDTH};

#[test]
fn game_object_new_keeps_its_arguments() {
    let obj = GameObject::new(-5, 7, 30, 40);
    assert_eq!(obj, GameObject { x: -5, y: 7, width: 30, height: 40 });
}

#[test]
fn boxes_that_share_area_collide() {
    let a = GameObject::new(0, 0, 1_000, 1_000);
    let b = GameObject::new(900, -900, 1_000, 1_000);
    assert!(collides(&a, &b));
}

#[test]
fn collides_does_not_depend_on_the_order() {
    let boxes = [
        GameObject::new(0, 0, 1_000, 1_000),
        GameObject::new(900, 0, 1_000, 1_000),
        GameObject::new(1_000, 1_000, 1_000, 1_000),
        GameObject::new(1_001, 0, 1_000, 1_000),
        GameObject::new(0, -5_000, 300, 700),
        GameObject::new(10, 10, 1, 1),
    ];
    for a in boxes.iter() {
        for b in boxes.iter() {
            assert_eq!(collides(a, b), collides(b, a));
        }
    }
}

#[test]
fn boxes_that_touch_along_an_edge_collide() {
    let a = GameObject::new(0, 0, 1_000, 1_000);
    let right = GameObject::new(1_000, 0, 1_000, 1_000);
    let below = GameObject::new(0, 1_000, 1_000, 1_000);
    let corner = GameObject::new(1_000, 1_000, 1_000, 1_000);
    assert!(collides(&a, &right));
    assert!(collides(&a, &below));
    assert!(collides(&a, &corner));
}

#[test]
fn boxes_with_a_gap_on_one_axis_do_not_collide() {
    let a = GameObject::new(0, 0, 1_000, 1_000);
    let right = GameObject::new(1_001, 0, 1_000, 1_000);
    let below = GameObject::new(0, 1_001, 1_000, 1_000);
    let above = GameObject::new(0, -1_001, 1_000, 1_000);
    assert!(!collides(&a, &right));
    assert!(!collides(&a, &below));
    assert!(!collides(&a, &above));
}

#[test]
fn boxes_of_odd_size_touch_at_half_units() {
    // Edges at 1.5 and at 1.5: the boxes touch.
    let a = GameObject::new(0, 0, 3, 3);
    let b = GameObject::new(2, 0, 1, 1);
    assert!(collides(&a, &b));
    // Edges at 1.5 and at 2.5: a gap of one unit.
    let c = GameObject::new(3, 0, 1, 1);
    assert!(!collides(&a, &c));
}

#[test]
fn a_box_inside_another_collides_with_it() {
    let outer = GameObject::new(0, 0, 10_000, 10_000);
    let inner = GameObject::new(100, -100, 10, 10);
    assert!(collides(&outer, &inner));
    assert!(collides(&inner, &outer));
}

#[test]
fn projectile_new_has_the_fixed_size_and_speed() {
    let shot = Projectile::new(30_750, 55_000);
    assert_eq!(shot.obj, GameObject { x: 30_750, y: 55_000, width: PROJECTILE_WIDTH, height: PROJECTILE_HEIGHT });
    assert_eq!(shot.dy, PROJECTILE_SPEED);
    assert_eq!((PROJECTILE_WIDTH, PROJECTILE_HEIGHT, PROJECTILE_SPEED), (500, 1_000, -500));
}

#[test]
fn projectile_update_moves_up_by_its_speed() {
    let mut shot = Projectile::new(100, 55_000);
    shot.update();
    assert_eq!(shot.obj.y, 54_500);
    assert_eq!(shot.obj.x, 100);
    shot.update();
    assert_eq!(shot.obj.y, 54_000);
    assert_eq!(shot.dy, -500);
}

#[test]
fn projectile_without_speed_stays() {
    let mut shot = Projectile::new(100, 200);
    shot.dy = 0;
    let before = shot;
    for _ in 0..50 {
        shot.update();
    }
    assert_eq!(shot, before);
}

#[test]
fn asteroid_new_has_the_fixed_size_and_speed() {
    let rock = Asteroid::new(2_500, 0);
    assert_eq!(rock.obj, GameObject { x: 2_500, y: 0, width: ASTEROID_SIZE, height: ASTEROID_SIZE });
    assert_eq!(rock.velocity, ASTEROID_SPEED);
    assert_eq!(rock.rotation, 0);
    assert_eq!((ASTEROID_SIZE, ASTEROID_SPEED), (3_000, 30));
}

#[test]
fn asteroid_update_falls_and_turns() {
    let mut rock = Asteroid::new(2_500, 0);
    rock.update();
    assert_eq!(rock.obj.y, 30);
    assert_eq!(rock.rotation, 2);
    rock.update();
    assert_eq!(rock.obj.y, 60);
    assert_eq!(rock.rotation, 4);
    assert_eq!(rock.obj.x, 2_500);
}

#[test]
fn asteroid_rotation_wraps_at_a_full_turn() {
    let mut rock = Asteroid::new(0, 0);
    rock.rotation = 358;
    rock.update();
    assert_eq!(rock.rotation, 0);
    rock.rotation = 359;
    rock.update();
    assert_eq!(rock.rotation, 1);
    for _ in 0..180 {
        rock.update();
    }
    assert_eq!(rock.rotation, 1);
}

#[test]
fn asteroid_without_speed_keeps_its_box() {
    let mut rock = Asteroid::new(700, 900);
    rock.velocity = 0;
    let before = rock.obj;
    for _ in 0..50 {
        rock.update();
    }
    assert_eq!(rock.obj, before);
    assert_eq!(rock.rotation, 100);
}

#[test]
fn power_up_new_has_the_fixed_size_and_speed() {
    let bonus = PowerUp::new(4_000, 5_000, PowerUpType::AutoShoot);
    assert_eq!(bonus.obj, GameObject { x: 4_000, y: 5_000, width: POWER_UP_SIZE, height: POWER_UP_SIZE });
    assert_eq!(bonus.power_up_type, PowerUpType::AutoShoot);
    assert_eq!(bonus.velocity, POWER_UP_SPEED);
    assert_eq!((POWER_UP_SIZE, POWER_UP_SPEED), (2_000, 200));
}

#[test]
fn power_up_update_falls_faster_than_an_asteroid() {
    let mut bonus = PowerUp::new(4_000, 5_000, PowerUpType::SpreadShot);
    let mut rock = Asteroid::new(4_000, 5_000);
    bonus.update();
    rock.update();
    assert_eq!(bonus.obj.y, 5_200);
    assert!(bonus.obj.y > rock.obj.y);
    assert_eq!(bonus.power_up_type, PowerUpType::SpreadShot);
}

#[test]
fn power_up_without_speed_stays() {
    let mut bonus = PowerUp::new(4_000, 5_000, PowerUpType::ScreenClearingBomb);
    bonus.velocity = 0;
    let before = bonus;
    for _ in 0..50 {
        bonus.update();
    }
    assert_eq!(bonus, before);
}

#[test]
fn player_new_starts_at_rest() {
    let ship = Player::new();
    assert_eq!(ship.obj, GameObject { x: 30_000, y: 55_000, width: 2_000, height: 2_000 });
    assert_eq!(ship.dx, 0);
    assert!(!ship.left_held && !ship.right_held);
    assert_eq!(ship.last_shot_time, 0);
    assert_eq!(ship.shot_cooldown, 500_000);
    assert!(!ship.spread_shooting);
}

#[test]
fn steer_adds_up_the_held_directions() {
    assert_eq!(steer(false, false), 0);
    assert_eq!(steer(false, true), PLAYER_STEP);
    assert_eq!(steer(true, false), -PLAYER_STEP);
    assert_eq!(steer(true, true), 0);
    assert_eq!(PLAYER_STEP, 333);
}

#[test]
fn player_update_moves_by_its_speed() {
    let mut ship = Player::new();
    ship.dx = 333;
    ship.update(60_000);
    assert_eq!(ship.obj.x, 30_333);
    ship.dx = -333;
    ship.update(60_000);
    ship.update(60_000);
    assert_eq!(ship.obj.x, 29_667);
    assert_eq!(ship.obj.y, 55_000);
}

#[test]
fn player_update_stops_at_the_walls() {
    let mut ship = Player::new();
    ship.obj.x = 57_900;
    ship.dx = 333;
    ship.update(60_000);
    assert_eq!(ship.obj.x, 58_000);
    ship.update(60_000);
    assert_eq!(ship.obj.x, 58_000);
    ship.obj.x = 100;
    ship.dx = -333;
    ship.update(60_000);
    assert_eq!(ship.obj.x, 0);
    ship.update(60_000);
    assert_eq!(ship.obj.x, 0);
}

#[test]
fn player_update_brings_a_ship_from_outside_back_between_the_walls() {
    let mut ship = Player::new();
    ship.obj.x = -40_000;
    ship.update(60_000);
    assert_eq!(ship.obj.x, 0);
    ship.obj.x = 90_000;
    ship.update(60_000);
    assert_eq!(ship.obj.x, 58_000);
}

#[test]
fn player_stays_between_the_walls_whatever_the_speed() {
    let speeds = [0, 333, -333, 666, -666, 100_000, -100_000, 57_999, 1, -1];
    let mut ship = Player::new();
    for round in 0..200 {
        ship.dx = speeds[round % speeds.len()];
        ship.update(60_000);
        assert!(0 <= ship.obj.x && ship.obj.x <= 60_000 - ship.obj.width);
    }
}

#[test]
fn player_at_rest_stays() {
    let mut ship = Player::new();
    let before = ship;
    for _ in 0..100 {
        ship.update(60_000);
    }
    assert_eq!(ship, before);
}

#[test]
fn shoot_twice_within_the_cooldown_fires_once() {
    let mut ship = Player::new();
    let mut shots = Vec::new();
    ship.shoot(500_000, &mut shots);
    assert_eq!(shots.len(), 1);
    assert_eq!(ship.last_shot_time, 500_000);
    ship.shoot(999_999, &mut shots);
    assert_eq!(shots.len(), 1);
    assert_eq!(ship.last_shot_time, 500_000);
}

#[test]
fn shoot_after_the_cooldown_fires_again() {
    let mut ship = Player::new();
    let mut shots = Vec::new();
    ship.shoot(500_000, &mut shots);
    ship.shoot(1_000_000, &mut shots);
    assert_eq!(shots.len(), 2);
    assert_eq!(ship.last_shot_time, 1_000_000);
}

#[test]
fn shoot_before_the_first_cooldown_is_over_does_nothing() {
    let mut ship = Player::new();
    let mut shots = vec![Projectile::new(1, 2)];
    ship.shoot(499_999, &mut shots);
    assert_eq!(shots, vec![Projectile::new(1, 2)]);
    assert_eq!(ship, Player::new());
}

#[test]
fn shoot_with_a_clock_behind_the_last_shot_does_nothing() {
    let mut ship = Player::new();
    ship.last_shot_time = 3_000_000;
    let mut shots = Vec::new();
    ship.shoot(1_000_000, &mut shots);
    assert!(shots.is_empty());
    assert_eq!(ship.last_shot_time, 3_000_000);
}

#[test]
fn shoot_puts_the_shot_at_the_muzzle() {
    let mut ship = Player::new();
    let mut shots = Vec::new();
    ship.shoot(700_000, &mut shots);
    assert_eq!(shots, vec![Projectile::new(30_750, 55_000)]);
}

#[test]
fn forced_shoot_ignores_the_cooldown() {
    let mut ship = Player::new();
    let mut shots = Vec::new();
    ship.forced_shoot(10, &mut shots);
    ship.forced_shoot(11, &mut shots);
    assert_eq!(shots.len(), 2);
    assert_eq!(ship.last_shot_time, 11);
}

#[test]
fn forced_shoot_without_spread_fires_one_shot() {
    let mut ship = Player::new();
    let mut shots = Vec::new();
    ship.forced_shoot(10, &mut shots);
    assert_eq!(shots, vec![Projectile::new(30_750, 55_000)]);
}

#[test]
fn forced_shoot_with_spread_fires_three_shots() {
    let mut ship = Player::new();
    ship.spread_shooting = true;
    let mut shots = vec![Projectile::new(0, 0)];
    ship.forced_shoot(10, &mut shots);
    assert_eq!(
        shots,
        vec![
            Projectile::new(0, 0),
            Projectile::new(30_750, 55_000),
            Projectile::new(28_000, 55_500),
            Projectile::new(34_000, 55_500),
        ]
    );
    assert_eq!(ship.last_shot_time, 10);
    assert!(ship.spread_shooting);
}
