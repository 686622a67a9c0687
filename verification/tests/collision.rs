use hive_defense::actor::{Actor, Mobile};
use hive_defense::collide::{all_valid, find_overlap, is_blocked, retain_alive, slide};
use hive_defense::geometry::{BoundingBox, Vec2, Viewport};
use hive_defense::player::{Player, Projectile};
use hive_defense::terrain::{Hive, Terrain, TerrainKind};
use hive_defense::geometry::Direction;

fn view() -> Viewport {
    Viewport { width: 1_600_000, height: 1_200_000 }
}

/// A player whose box runs from 75 to 125 pixels on both axes.
fn mover() -> Player {
    let mut player = Player::new(&view());
    player.x = 100_000;
    player.y = 100_000;
    player
}

fn wall_to_the_right() -> BoundingBox {
    BoundingBox::new(130_000, 50_000, 100_000, 100_000)
}

fn wall_below() -> BoundingBox {
    BoundingBox::new(50_000, 130_000, 100_000, 100_000)
}

#[test]
fn the_box_of_a_player_is_the_square_around_it() {
    assert_eq!(mover().bounding_box(), BoundingBox::new(75_000, 75_000, 50_000, 50_000));
}

#[test]
fn a_mover_stops_at_a_wall_to_its_right() {
    let corrected = mover().handle_collision(Vec2 { x: 10_000, y: 0 }, &wall_to_the_right());
    assert_eq!(corrected, Vec2 { x: 5_000, y: 0 });
}

#[test]
fn a_mover_stops_at_a_wall_to_its_left() {
    let wall = BoundingBox::new(-30_000, 50_000, 100_000, 100_000);
    let corrected = mover().handle_collision(Vec2 { x: -10_000, y: 0 }, &wall);
    assert_eq!(corrected, Vec2 { x: -5_000, y: 0 });
}

#[test]
fn a_mover_stops_at_a_wall_below() {
    let corrected = mover().handle_collision(Vec2 { x: 0, y: 10_000 }, &wall_below());
    assert_eq!(corrected, Vec2 { x: 0, y: 5_000 });
}

#[test]
fn a_mover_stops_at_a_wall_above() {
    let wall = BoundingBox::new(50_000, -30_000, 100_000, 100_000);
    let corrected = mover().handle_collision(Vec2 { x: 0, y: -10_000 }, &wall);
    assert_eq!(corrected, Vec2 { x: 0, y: -5_000 });
}

#[test]
fn a_mover_slides_along_a_wall() {
    let corrected = mover().handle_collision(Vec2 { x: 10_000, y: 7_000 }, &wall_to_the_right());
    assert_eq!(corrected, Vec2 { x: 5_000, y: 7_000 });
    let corrected = mover().handle_collision(Vec2 { x: 7_000, y: 10_000 }, &wall_below());
    assert_eq!(corrected, Vec2 { x: 7_000, y: 5_000 });
}

#[test]
fn a_mover_at_the_wall_does_not_advance() {
    let mut player = mover();
    player.x = 105_000;
    let corrected = player.handle_collision(Vec2 { x: 10_000, y: 0 }, &wall_to_the_right());
    assert_eq!(corrected, Vec2 { x: 0, y: 0 });
}

#[test]
fn a_collider_out_of_reach_changes_nothing() {
    let far = BoundingBox::new(500_000, 500_000, 10_000, 10_000);
    let desired = Vec2 { x: 10_000, y: -10_000 };
    assert_eq!(mover().handle_collision(desired, &far), desired);
}

#[test]
fn a_displacement_that_just_touches_is_kept() {
    let corrected = mover().handle_collision(Vec2 { x: 5_000, y: 0 }, &wall_to_the_right());
    assert_eq!(corrected, Vec2 { x: 5_000, y: 0 });
}

#[test]
fn a_wall_that_only_shares_a_corner_line_does_not_stop_the_mover() {
    // The wall's top edge is level with the mover's bottom edge: the
    // meeting has no height.
    let wall = BoundingBox::new(130_000, 125_000, 100_000, 100_000);
    let corrected = mover().handle_collision(Vec2 { x: 10_000, y: 0 }, &wall);
    assert_eq!(corrected, Vec2 { x: 10_000, y: 0 });
}

#[test]
fn no_displacement_stays_none() {
    let inside = BoundingBox::new(0, 0, 1_000_000, 1_000_000);
    assert_eq!(mover().handle_collision(Vec2::zero(), &inside), Vec2::zero());
}

#[test]
fn a_mover_whose_left_edge_lies_in_the_collider_is_pushed_right() {
    // The displaced box runs from 80 to 130; the collider from 60 to 100.
    let collider = BoundingBox::new(60_000, 50_000, 40_000, 100_000);
    let corrected = mover().handle_collision(Vec2 { x: 5_000, y: 0 }, &collider);
    assert_eq!(corrected, Vec2 { x: 25_000, y: 0 });
}

#[test]
fn corrections_are_threaded_through_the_terrain() {
    let terrain = vec![
        Terrain::new(130_000, 50_000, 100_000, 100_000, TerrainKind::Block),
        Terrain::new(50_000, 130_000, 100_000, 100_000, TerrainKind::Flower),
    ];
    let corrected = slide(&mover(), Vec2 { x: 10_000, y: 10_000 }, &terrain);
    assert_eq!(corrected, Vec2 { x: 5_000, y: 5_000 });
}

#[test]
fn sliding_along_no_terrain_changes_nothing() {
    let terrain: Vec<Terrain> = Vec::new();
    let desired = Vec2 { x: 10_000, y: 10_000 };
    assert_eq!(slide(&mover(), desired, &terrain), desired);
}

#[test]
fn the_first_obstacle_decides() {
    // Both walls lie to the right. The first shortens the step to 5 pixels;
    // the second, nearer by 2 pixels, shortens what the first has left.
    let terrain = vec![
        Terrain::new(130_000, 50_000, 100_000, 100_000, TerrainKind::Block),
        Terrain::new(128_000, 50_000, 100_000, 100_000, TerrainKind::Block),
    ];
    let corrected = slide(&mover(), Vec2 { x: 10_000, y: 0 }, &terrain);
    assert_eq!(corrected, Vec2 { x: 3_000, y: 0 });
}

#[test]
fn screen_constrain_brings_the_player_back_from_the_left_and_top() {
    let mut player = mover();
    player.x = -10_000;
    player.y = 5_000;
    player.screen_constrain(&view(), 0);
    assert_eq!((player.x, player.y), (25_000, 25_000));
}

#[test]
fn screen_constrain_brings_the_player_back_from_the_right_and_bottom() {
    let mut player = mover();
    player.x = 1_700_000;
    player.y = 1_190_000;
    player.screen_constrain(&view(), 0);
    assert_eq!((player.x, player.y), (1_575_000, 1_175_000));
}

#[test]
fn screen_constrain_leaves_a_player_inside_alone() {
    let mut player = mover();
    let before = player;
    player.screen_constrain(&view(), 0);
    assert_eq!(player, before);
}

#[test]
fn screen_constrain_allows_touching_the_edge() {
    let mut player = mover();
    player.x = 25_000;
    player.y = 1_175_000;
    let before = player;
    player.screen_constrain(&view(), 0);
    assert_eq!(player, before);
}

#[test]
fn collides_with_is_the_overlap_of_the_boxes() {
    let player = mover();
    assert!(player.collides_with(&BoundingBox::new(120_000, 120_000, 10_000, 10_000)));
    assert!(!player.collides_with(&BoundingBox::new(125_000, 75_000, 10_000, 10_000)));
}

#[test]
fn actors_know_whether_they_are_on_screen() {
    let mut player = mover();
    assert!(player.fully_onscreen(&view()));
    assert!(!player.fully_offscreen(&view()));
    player.x = -25_001;
    assert!(player.fully_offscreen(&view()));
    assert!(!player.fully_onscreen(&view()));
}

#[test]
fn find_overlap_returns_the_first_in_list_order() {
    let hives = vec![Hive::new(500_000, 500_000), Hive::new(0, 0), Hive::new(50_000, 50_000)];
    let probe = BoundingBox::new(60_000, 60_000, 10_000, 10_000);
    assert_eq!(find_overlap(&hives, &probe), Some(1));
    let probe = BoundingBox::new(120_000, 120_000, 10_000, 10_000);
    assert_eq!(find_overlap(&hives, &probe), Some(2));
    let probe = BoundingBox::new(300_000, 300_000, 10_000, 10_000);
    assert_eq!(find_overlap(&hives, &probe), None);
    let none: Vec<Hive> = Vec::new();
    assert_eq!(find_overlap(&none, &probe), None);
}

#[test]
fn only_blocks_stop_projectiles() {
    let probe = BoundingBox::new(10_000, 10_000, 10_000, 10_000);
    let flower = vec![Terrain::new(0, 0, 50_000, 50_000, TerrainKind::Flower)];
    let objective = vec![Terrain::new(0, 0, 50_000, 50_000, TerrainKind::Objective)];
    let block = vec![
        Terrain::new(0, 0, 50_000, 50_000, TerrainKind::Flower),
        Terrain::new(0, 0, 50_000, 50_000, TerrainKind::Block),
    ];
    let far_block = vec![Terrain::new(100_000, 0, 50_000, 50_000, TerrainKind::Block)];
    assert!(!is_blocked(&flower, &probe));
    assert!(!is_blocked(&objective, &probe));
    assert!(is_blocked(&block, &probe));
    assert!(!is_blocked(&far_block, &probe));
    assert!(!is_blocked(&Vec::new(), &probe));
}

#[test]
fn retain_alive_keeps_the_order_of_the_living() {
    let mut hives = vec![Hive::new(1, 0), Hive::new(2, 0), Hive::new(3, 0), Hive::new(4, 0)];
    hives[0].hp = 0;
    hives[2].hp = 0;
    retain_alive(&mut hives);
    assert_eq!(hives, vec![Hive::new(2, 0), Hive::new(4, 0)]);
}

#[test]
fn retain_alive_removes_spent_projectiles() {
    let player = mover();
    let mut spent = player.shoot(Direction::Up);
    spent.active = false;
    let mut projectiles: Vec<Projectile> = vec![spent, player.shoot(Direction::Left), spent];
    retain_alive(&mut projectiles);
    assert_eq!(projectiles, vec![player.shoot(Direction::Left)]);
}

#[test]
fn all_valid_holds_where_each_is_valid() {
    let mut hives = vec![Hive::new(1, 0), Hive::new(2, 0)];
    assert!(all_valid(&hives));
    hives[1].hp = -1;
    assert!(!all_valid(&hives));
    let none: Vec<Hive> = Vec::new();
    assert!(all_valid(&none));
}

#[test]
fn hive_and_terrain_validity() {
    let hive = Hive::new(0, 0);
    assert!(hive.is_valid());
    assert!(Hive { hp: 0, ..hive }.is_valid());
    assert!(!Hive { hp: 6, ..hive }.is_valid());
    assert!(!Hive { hp: -1, ..hive }.is_valid());
    assert!(!Hive { width: 0, ..hive }.is_valid());
    assert!(!Hive { height: 0, ..hive }.is_valid());
    assert!(Terrain::new(0, 0, 1, 1, TerrainKind::Flower).is_valid());
    assert!(!Terrain::new(0, 0, 0, 1, TerrainKind::Flower).is_valid());
    assert!(!Terrain::new(0, 0, 1, -1, TerrainKind::Block).is_valid());
}

#[test]
fn a_hive_is_struck_down_to_no_hit_point() {
    let mut hive = Hive::new(0, 0);
    hive.strike();
    assert_eq!(hive, Hive { hp: 4, ..Hive::new(0, 0) });
    hive.hp = 1;
    hive.strike();
    assert_eq!(hive.hp, 0);
    assert!(!hive.is_alive());
    hive.strike();
    assert_eq!(hive.hp, 0);
}

#[test]
fn the_centre_of_a_hive() {
    assert_eq!(Hive::new(200_000, 300_000).center(), Vec2 { x: 250_000, y: 350_000 });
    let mut odd = Hive::new(-7, 5);
    odd.width = 5;
    odd.height = 1;
    assert_eq!(odd.center(), Vec2 { x: -5, y: 5 });
    assert_eq!(Hive::new(i32::MAX, i32::MAX).center(), Vec2 { x: i32::MAX, y: i32::MAX });
}

#[test]
fn terrain_never_changes_and_never_goes() {
    let mut flower = Terrain::new(1, 2, 3, 4, TerrainKind::Flower);
    flower.tick(99);
    assert_eq!(flower, Terrain::new(1, 2, 3, 4, TerrainKind::Flower));
    assert!(flower.is_alive());
    let mut hive = Hive::new(1, 2);
    hive.tick(99);
    assert_eq!(hive, Hive::new(1, 2));
}

#[test]
fn the_default_kind_of_terrain_is_a_block() {
    assert_eq!(TerrainKind::default(), TerrainKind::Block);
    assert!(Terrain::new(0, 0, 1, 1, TerrainKind::Block).stops_projectiles());
    assert!(!Terrain::new(0, 0, 1, 1, TerrainKind::Flower).stops_projectiles());
    assert!(!Terrain::new(0, 0, 1, 1, TerrainKind::Objective).stops_projectiles());
}
