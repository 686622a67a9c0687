use hive_defense::actor::{Actor, Mobile};
use hive_defense::enemy::{
    Enemy, Entrance, LastPosition, Retarget, ENEMY_HP, ENEMY_LONG_SIDE, ENEMY_SHORT_SIDE,
    IMMOBILE_VOID_TIME_MS, MOVE_EPSILON, RETARGET_ODDS,
};
use hive_defense::geometry::{BoundingBox, Direction, Vec2, Viewport};
use hive_defense::seek::{clamp_length, isqrt};
use hive_defense::terrain::Hive;

fn view() -> Viewport {
    Viewport { width: 1_600_000, height: 1_200_000 }
}

fn enemy_at(x: i32, y: i32, speed: i32) -> Enemy {
    let mut enemy = Enemy::spawn(Direction::Up, x, speed, 0, &view());
    enemy.y = y;
    enemy.last_position = LastPosition { x, y, at: 0 };
    enemy
}

fn take(target: Vec2) -> Retarget {
    Retarget { roll: 0, pick: Some(target) }
}

#[test]
fn enemy_constants() {
    assert_eq!(ENEMY_HP, 50);
    assert_eq!(ENEMY_SHORT_SIDE, 25_000);
    assert_eq!(ENEMY_LONG_SIDE, 100_000);
    assert_eq!(IMMOBILE_VOID_TIME_MS, 5000);
    assert_eq!(MOVE_EPSILON, 1);
    assert_eq!(RETARGET_ODDS, 100);
}

#[test]
fn integer_square_roots() {
    assert_eq!(isqrt(0), 0);
    assert_eq!(isqrt(1), 1);
    assert_eq!(isqrt(2), 1);
    assert_eq!(isqrt(3), 1);
    assert_eq!(isqrt(4), 2);
    assert_eq!(isqrt(15), 3);
    assert_eq!(isqrt(16), 4);
    assert_eq!(isqrt(17), 4);
    assert_eq!(isqrt(999_999), 999);
    assert_eq!(isqrt(1_000_000), 1000);
    assert_eq!(isqrt(u64::MAX), u32::MAX);
    assert_eq!(isqrt((u32::MAX as u64) * (u32::MAX as u64)), u32::MAX);
    assert_eq!(isqrt((u32::MAX as u64) * (u32::MAX as u64) - 1), u32::MAX - 1);
}

#[test]
fn a_short_displacement_is_not_clamped() {
    assert_eq!(clamp_length(300, 400, 1000), Vec2 { x: 300, y: 400 });
    assert_eq!(clamp_length(-300, 400, 500), Vec2 { x: -300, y: 400 });
    assert_eq!(clamp_length(0, 0, 0), Vec2::zero());
    assert_eq!(clamp_length(0, 0, 1000), Vec2::zero());
}

#[test]
fn a_long_displacement_is_shortened_to_the_limit() {
    assert_eq!(clamp_length(30_000, 40_000, 5_000), Vec2 { x: 3_000, y: 4_000 });
    assert_eq!(clamp_length(-30_000, 40_000, 5_000), Vec2 { x: -3_000, y: 4_000 });
    assert_eq!(clamp_length(30_000, -40_000, 5_000), Vec2 { x: 3_000, y: -4_000 });
    assert_eq!(clamp_length(-6, -8, 5), Vec2 { x: -3, y: -4 });
}

#[test]
fn the_limit_is_met_exactly_along_an_axis() {
    assert_eq!(clamp_length(1_000_000, 0, 1_500), Vec2 { x: 1_500, y: 0 });
    assert_eq!(clamp_length(-1_000_000, 0, 1_500), Vec2 { x: -1_500, y: 0 });
    assert_eq!(clamp_length(0, 77, 10), Vec2 { x: 0, y: 10 });
    assert_eq!(clamp_length(0, -77, 10), Vec2 { x: 0, y: -10 });
}

#[test]
fn components_are_rounded_towards_zero() {
    assert_eq!(clamp_length(1_000, 1_000, 1_000), Vec2 { x: 707, y: 707 });
    assert_eq!(clamp_length(-1_000, 1_000, 1_000), Vec2 { x: -707, y: 707 });
    assert_eq!(clamp_length(2, 1, 1), Vec2 { x: 0, y: 0 });
    assert_eq!(clamp_length(100, 1, 10), Vec2 { x: 9, y: 0 });
}

#[test]
fn a_limit_of_zero_gives_no_displacement() {
    assert_eq!(clamp_length(5, -9, 0), Vec2::zero());
}

#[test]
fn clamping_holds_at_the_ends_of_the_range() {
    let far: i64 = 0xFFFF_FFFF;
    assert_eq!(clamp_length(far, 0, i32::MAX), Vec2 { x: i32::MAX, y: 0 });
    assert_eq!(clamp_length(-far, 0, i32::MAX), Vec2 { x: -i32::MAX, y: 0 });
    let v = clamp_length(far, far, i32::MAX);
    assert_eq!(v.x, v.y);
    let length2 = 2 * (v.x as i128) * (v.x as i128);
    let limit2 = (i32::MAX as i128) * (i32::MAX as i128);
    assert!(length2 <= limit2);
    let next2 = 2 * (v.x as i128 + 1) * (v.x as i128 + 1);
    assert!(next2 > limit2);
}

#[test]
fn a_clamped_displacement_is_never_longer_than_the_limit() {
    let limit: i32 = 2_500;
    for dx in [-90_000i64, -2_501, -1_768, -7, 0, 3, 1_767, 2_500, 40_000] {
        for dy in [-60_000i64, -2_500, -13, 0, 1, 999, 1_768, 70_001] {
            let v = clamp_length(dx, dy, limit);
            let length2 = (v.x as i64) * (v.x as i64) + (v.y as i64) * (v.y as i64);
            assert!(length2 <= (limit as i64) * (limit as i64));
            if dx * dx + dy * dy <= (limit as i64) * (limit as i64) {
                assert_eq!((v.x as i64, v.y as i64), (dx, dy));
            } else {
                let next2 = (v.x.abs() as i64 + 1) * (v.x.abs() as i64 + 1)
                    + (v.y.abs() as i64 + 1) * (v.y.abs() as i64 + 1);
                assert!(next2 > (limit as i64) * (limit as i64));
            }
        }
    }
}

#[test]
fn an_adversary_from_the_top_straddles_the_top_edge() {
    let enemy = Enemy::spawn(Direction::Up, 640_000, 1_500, 77, &view());
    assert_eq!(
        enemy,
        Enemy {
            hp: 50,
            x: 640_000,
            y: -25_000,
            width: 25_000,
            height: 100_000,
            speed: 1_500,
            direction: Direction::Up,
            target: None,
            last_position: LastPosition { x: 640_000, y: -25_000, at: 77 },
        }
    );
    assert!(enemy.is_valid());
}

#[test]
fn an_adversary_from_the_bottom_starts_below_the_playfield() {
    let enemy = Enemy::spawn(Direction::Down, 10, 1_000, 0, &view());
    assert_eq!((enemy.x, enemy.y), (10, 1_200_000));
    assert_eq!((enemy.width, enemy.height), (25_000, 100_000));
    assert_eq!(enemy.last_position, LastPosition { x: 10, y: 1_200_000, at: 0 });
}

#[test]
fn an_adversary_from_the_left_starts_left_of_the_playfield() {
    let enemy = Enemy::spawn(Direction::Left, 300_000, 1_000, 0, &view());
    assert_eq!((enemy.x, enemy.y), (-100_000, 300_000));
    assert_eq!((enemy.width, enemy.height), (100_000, 25_000));
    assert_eq!(enemy.direction, Direction::Left);
}

#[test]
fn an_adversary_from_the_right_starts_right_of_the_playfield() {
    let enemy = Enemy::spawn(Direction::Right, 300_000, 1_000, 0, &view());
    assert_eq!((enemy.x, enemy.y), (1_600_000, 300_000));
    assert_eq!((enemy.width, enemy.height), (100_000, 25_000));
}

#[test]
fn the_box_of_an_adversary_starts_at_its_corner() {
    let enemy = Enemy::spawn(Direction::Left, 300_000, 1_000, 0, &view());
    assert_eq!(enemy.bounding_box(), BoundingBox::new(-100_000, 300_000, 100_000, 25_000));
}

#[test]
fn an_adversary_without_a_target_takes_the_pick() {
    let mut enemy = enemy_at(0, 0, 1_000);
    let desired = enemy.seek(&Retarget { roll: 57, pick: Some(Vec2 { x: 300, y: 400 }) });
    assert_eq!(enemy.target, Some(Vec2 { x: 300, y: 400 }));
    assert_eq!(desired, Vec2 { x: 300, y: 400 });
}

#[test]
fn an_adversary_with_a_target_keeps_it_unless_the_roll_is_zero() {
    let mut enemy = enemy_at(0, 0, 5_000);
    enemy.target = Some(Vec2 { x: 30_000, y: 40_000 });
    let desired = enemy.seek(&Retarget { roll: 1, pick: Some(Vec2 { x: -9, y: -9 }) });
    assert_eq!(enemy.target, Some(Vec2 { x: 30_000, y: 40_000 }));
    assert_eq!(desired, Vec2 { x: 3_000, y: 4_000 });
    let desired = enemy.seek(&take(Vec2 { x: -10_000, y: 0 }));
    assert_eq!(enemy.target, Some(Vec2 { x: -10_000, y: 0 }));
    assert_eq!(desired, Vec2 { x: -5_000, y: 0 });
}

#[test]
fn an_adversary_without_a_target_and_without_a_pick_holds_its_position() {
    let mut enemy = enemy_at(10, 20, 5_000);
    let before = enemy;
    assert_eq!(enemy.seek(&Retarget::keep()), Vec2::zero());
    assert_eq!(enemy, before);
    assert_eq!(enemy.seek(&Retarget { roll: 0, pick: None }), Vec2::zero());
    assert_eq!(enemy, before);
}

#[test]
fn a_roll_of_zero_without_a_pick_drops_the_target() {
    let mut enemy = enemy_at(10, 20, 5_000);
    enemy.target = Some(Vec2 { x: 500, y: 500 });
    assert_eq!(enemy.seek(&Retarget { roll: 0, pick: None }), Vec2::zero());
    assert_eq!(enemy.target, None);
}

#[test]
fn an_adversary_never_overshoots_its_target() {
    let mut enemy = enemy_at(100, 100, 5_000);
    let desired = enemy.seek(&take(Vec2 { x: 103, y: 96 }));
    assert_eq!(desired, Vec2 { x: 3, y: -4 });
    let at_target = enemy.seek(&take(Vec2 { x: 100, y: 100 }));
    assert_eq!(at_target, Vec2::zero());
}

#[test]
fn seeking_works_across_the_whole_coordinate_range() {
    let mut enemy = enemy_at(i32::MIN, i32::MIN, 1_000);
    let desired = enemy.seek(&take(Vec2 { x: i32::MAX, y: i32::MIN }));
    assert_eq!(desired, Vec2 { x: 1_000, y: 0 });
}

#[test]
fn desired_movement_makes_for_a_hive() {
    let hives = vec![Hive::new(200_000, 300_000)];
    let mut enemy = enemy_at(250_000, 0, 2_000);
    let desired = enemy.desired_movement(&hives);
    assert_eq!(enemy.target, Some(Vec2 { x: 250_000, y: 350_000 }));
    assert_eq!(desired, Vec2 { x: 0, y: 2_000 });
}

#[test]
fn desired_movement_without_hives_holds_the_position() {
    let hives: Vec<Hive> = Vec::new();
    let mut enemy = enemy_at(250_000, 0, 2_000);
    assert_eq!(enemy.desired_movement(&hives), Vec2::zero());
    assert_eq!(enemy.target, None);
}

#[test]
fn desired_movement_is_never_longer_than_the_speed() {
    let hives = vec![Hive::new(0, 0), Hive::new(900_000, 100_000), Hive::new(10_000, 700_000)];
    let mut enemy = enemy_at(400_000, 400_000, 1_500);
    for _ in 0..500 {
        let desired = enemy.desired_movement(&hives);
        let length2 = (desired.x as i64) * (desired.x as i64) + (desired.y as i64) * (desired.y as i64);
        assert!(length2 <= 1_500 * 1_500);
        let target = enemy.target.unwrap();
        assert!(hives.iter().any(|h| h.center() == target));
        enemy.move_by(desired, 0);
    }
}

#[test]
fn a_move_is_applied_and_noted() {
    let mut enemy = enemy_at(100, 200, 1_000);
    enemy.move_by(Vec2 { x: 1, y: 0 }, 40);
    assert_eq!((enemy.x, enemy.y), (101, 200));
    assert_eq!(enemy.last_position, LastPosition { x: 101, y: 200, at: 40 });
    enemy.move_by(Vec2 { x: 0, y: -1 }, 50);
    assert_eq!((enemy.x, enemy.y), (101, 199));
    assert_eq!(enemy.last_position, LastPosition { x: 101, y: 199, at: 50 });
    enemy.move_by(Vec2 { x: -3, y: 4 }, 60);
    assert_eq!(enemy.last_position, LastPosition { x: 98, y: 203, at: 60 });
}

#[test]
fn a_displacement_below_the_threshold_on_both_axes_is_ignored() {
    let mut enemy = enemy_at(100, 200, 1_000);
    let before = enemy;
    enemy.move_by(Vec2::zero(), 40);
    assert_eq!(enemy, before);
}

#[test]
fn the_position_of_an_adversary_saturates() {
    let mut enemy = enemy_at(i32::MAX - 1, i32::MIN + 1, 1_000);
    enemy.move_by(Vec2 { x: 10, y: -10 }, 3);
    assert_eq!((enemy.x, enemy.y), (i32::MAX, i32::MIN));
    assert_eq!(enemy.last_position, LastPosition { x: i32::MAX, y: i32::MIN, at: 3 });
}

#[test]
fn an_adversary_that_stands_for_the_void_time_is_destroyed() {
    let mut enemy = enemy_at(100, 200, 1_000);
    enemy.tick(4_999);
    assert_eq!(enemy.hp, 50);
    enemy.tick(5_000);
    assert_eq!(enemy.hp, 0);
    assert!(!enemy.is_alive());
}

#[test]
fn an_adversary_that_moves_in_time_is_spared() {
    let mut enemy = enemy_at(100, 200, 1_000);
    enemy.move_by(Vec2 { x: 1, y: 1 }, 4_000);
    enemy.tick(8_999);
    assert_eq!(enemy.hp, 50);
    enemy.move_by(Vec2 { x: 1, y: 1 }, 8_999);
    enemy.tick(13_998);
    assert_eq!(enemy.hp, 50);
    enemy.move_by(Vec2::zero(), 13_998);
    enemy.tick(13_999);
    assert_eq!(enemy.hp, 0);
}

#[test]
fn a_clock_that_ran_backwards_destroys_nothing() {
    let mut enemy = enemy_at(100, 200, 1_000);
    enemy.last_position.at = 10_000;
    enemy.tick(0);
    assert_eq!(enemy.hp, 50);
}

#[test]
fn an_adversary_whose_position_differs_from_the_noted_one_is_spared() {
    let mut enemy = enemy_at(100, 200, 1_000);
    enemy.x = 101;
    enemy.tick(100_000);
    assert_eq!(enemy.hp, 50);
}

#[test]
fn wounds_take_hit_points_down_to_none() {
    let mut enemy = enemy_at(0, 0, 1_000);
    enemy.wound(25);
    assert_eq!(enemy.hp, 25);
    assert!(enemy.is_alive());
    enemy.wound(24);
    assert_eq!(enemy.hp, 1);
    enemy.wound(2);
    assert_eq!(enemy.hp, 0);
    enemy.wound(u32::MAX);
    assert_eq!(enemy.hp, 0);
    assert!(enemy.is_valid());
}

#[test]
fn a_wound_of_exactly_the_hit_points_destroys() {
    let mut enemy = enemy_at(0, 0, 1_000);
    enemy.wound(50);
    assert_eq!(enemy.hp, 0);
}

#[test]
fn enemy_validity() {
    let good = enemy_at(0, 0, 0);
    assert!(good.is_valid());
    assert!(!Enemy { hp: -1, ..good }.is_valid());
    assert!(!Enemy { width: 0, ..good }.is_valid());
    assert!(!Enemy { height: -5, ..good }.is_valid());
    assert!(!Enemy { speed: -1, ..good }.is_valid());
}

#[test]
fn an_entrance_lies_along_the_width_of_the_playfield() {
    for _ in 0..200 {
        let entrance = Entrance::random(&view());
        assert!(0 <= entrance.along && entrance.along <= 1_600_000);
    }
    let spot = Entrance::random(&Viewport { width: 0, height: 500 });
    assert_eq!(spot.along, 0);
}

#[test]
fn what_keeps_the_target() {
    assert_eq!(Retarget::keep(), Retarget { roll: 1, pick: None });
}

#[test]
fn a_roll_other_than_zero_picks_nothing() {
    let hives = vec![Hive::new(0, 0), Hive::new(500_000, 500_000)];
    assert_eq!(Retarget::decide(1, Some(hives[1]), &hives), Retarget { roll: 1, pick: None });
    assert_eq!(Retarget::decide(100, None, &hives), Retarget { roll: 100, pick: None });
    assert_eq!(Retarget::decide(-3, Some(hives[0]), &hives), Retarget { roll: -3, pick: None });
}

#[test]
fn a_roll_of_zero_picks_the_centre_of_the_hive_that_was_picked() {
    let hives = vec![Hive::new(0, 0), Hive::new(500_000, 500_000)];
    assert_eq!(
        Retarget::decide(0, Some(hives[1]), &hives),
        Retarget { roll: 0, pick: Some(Vec2 { x: 550_000, y: 550_000 }) }
    );
    assert_eq!(
        Retarget::decide(0, Some(hives[0]), &hives),
        Retarget { roll: 0, pick: Some(Vec2 { x: 50_000, y: 50_000 }) }
    );
}

#[test]
fn a_roll_of_zero_without_a_picked_hive_falls_back_on_the_first_hive() {
    let hives = vec![Hive::new(200_000, 300_000), Hive::new(500_000, 500_000)];
    assert_eq!(
        Retarget::decide(0, None, &hives),
        Retarget { roll: 0, pick: Some(Vec2 { x: 250_000, y: 350_000 }) }
    );
}

#[test]
fn a_roll_of_zero_without_hives_picks_nothing() {
    let hives: Vec<Hive> = Vec::new();
    assert_eq!(Retarget::decide(0, None, &hives), Retarget { roll: 0, pick: None });
}

#[test]
fn an_adversary_without_a_target_gets_one_whenever_a_hive_stands() {
    let hives = vec![Hive::new(200_000, 300_000)];
    for _ in 0..300 {
        let retarget = Retarget::random(false, &hives);
        assert_eq!(retarget, Retarget { roll: 0, pick: Some(Vec2 { x: 250_000, y: 350_000 }) });
    }
}
