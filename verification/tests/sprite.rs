use hive_defense::enemy::Enemy;
use hive_defense::geometry::{Direction, Viewport};
use hive_defense::player::{Player, PlayerState};
use hive_defense::sprite::{all_presentable, draw_all, Drawable, Point, Shape, Tint, ENEMY_WEAK_HP};
use hive_defense::terrain::{Hive, Terrain, TerrainKind};
use hive_defense::world::World;

fn view() -> Viewport {
    Viewport { width: 1_600_000, height: 1_200_000 }
}

fn circle(x: i64, y: i64, radius: i64, tint: Tint) -> Shape {
    Shape::Circle { centre: Point { x, y }, radius, tint }
}

fn rectangle(x: i64, y: i64, width: i64, height: i64, tint: Tint) -> Shape {
    Shape::Rectangle { corner: Point { x, y }, width, height, tint }
}

fn triangle(a: (i64, i64), b: (i64, i64), c: (i64, i64), tint: Tint) -> Shape {
    Shape::Triangle {
        a: Point { x: a.0, y: a.1 },
        b: Point { x: b.0, y: b.1 },
        c: Point { x: c.0, y: c.1 },
        tint,
    }
}

fn player_at(x: i32, y: i32, direction: Direction) -> Player {
    let mut player = Player::new(&view());
    player.x = x;
    player.y = y;
    player.direction = direction;
    player
}

#[test]
fn the_player_faces_up() {
    let shapes = player_at(100_000, 200_000, Direction::Up).draw();
    assert_eq!(
        shapes,
        vec![
            circle(100_000, 200_000, 25_000, Tint::Yellow),
            circle(100_000, 175_000, 15_000, Tint::Yellow),
            rectangle(75_000, 197_500, 50_000, 5_000, Tint::Black),
            circle(75_000, 200_000, 12_500, Tint::White),
            circle(125_000, 200_000, 12_500, Tint::White),
        ]
    );
}

#[test]
fn the_player_faces_down() {
    let shapes = player_at(100_000, 200_000, Direction::Down).draw();
    assert_eq!(shapes[1], circle(100_000, 225_000, 15_000, Tint::Yellow));
    assert_eq!(shapes[2], rectangle(75_000, 197_500, 50_000, 5_000, Tint::Black));
    assert_eq!(shapes.len(), 5);
}

#[test]
fn the_player_faces_left() {
    let shapes = player_at(100_000, 200_000, Direction::Left).draw();
    assert_eq!(
        shapes,
        vec![
            circle(100_000, 200_000, 25_000, Tint::Yellow),
            circle(75_000, 200_000, 15_000, Tint::Yellow),
            rectangle(97_500, 175_000, 5_000, 50_000, Tint::Black),
            circle(100_000, 175_000, 12_500, Tint::White),
            circle(100_000, 225_000, 12_500, Tint::White),
        ]
    );
}

#[test]
fn the_player_faces_right() {
    let shapes = player_at(100_000, 200_000, Direction::Right).draw();
    assert_eq!(shapes[1], circle(125_000, 200_000, 15_000, Tint::Yellow));
    assert_eq!(shapes[2], rectangle(97_500, 175_000, 5_000, 50_000, Tint::Black));
}

#[test]
fn an_immune_player_is_gray() {
    let mut player = player_at(100_000, 200_000, Direction::Up);
    player.state = PlayerState::Invulnerable(5);
    let shapes = player.draw();
    assert_eq!(shapes[0], circle(100_000, 200_000, 25_000, Tint::Gray));
    assert_eq!(shapes[1], circle(100_000, 175_000, 15_000, Tint::Gray));
    assert_eq!(shapes[3], circle(75_000, 200_000, 12_500, Tint::White));
}

#[test]
fn a_projectile_is_a_triangle_that_points_its_way() {
    let player = player_at(100_000, 200_000, Direction::Up);
    assert_eq!(
        player.shoot(Direction::Up).draw(),
        vec![triangle((100_000, 180_000), (90_000, 220_000), (110_000, 220_000), Tint::White)]
    );
    assert_eq!(
        player.shoot(Direction::Down).draw(),
        vec![triangle((100_000, 220_000), (90_000, 180_000), (110_000, 180_000), Tint::White)]
    );
    assert_eq!(
        player.shoot(Direction::Right).draw(),
        vec![triangle((120_000, 200_000), (80_000, 210_000), (80_000, 190_000), Tint::White)]
    );
    assert_eq!(
        player.shoot(Direction::Left).draw(),
        vec![triangle((80_000, 200_000), (120_000, 210_000), (120_000, 190_000), Tint::White)]
    );
}

#[test]
fn an_upright_adversary() {
    let mut enemy = Enemy::spawn(Direction::Down, 300_000, 1_000, 0, &view());
    enemy.y = 600_000;
    assert_eq!(
        enemy.draw(),
        vec![
            rectangle(300_000, 612_500, 25_000, 75_000, Tint::Orange),
            rectangle(300_000, 623_333, 25_000, 20_000, Tint::Black),
            rectangle(300_000, 656_666, 25_000, 20_000, Tint::Black),
            circle(312_500, 612_500, 12_500, Tint::Orange),
            circle(312_500, 687_500, 12_500, Tint::Orange),
            circle(287_500, 650_000, 12_500, Tint::LightGray),
            circle(337_500, 650_000, 12_500, Tint::LightGray),
        ]
    );
}

#[test]
fn a_level_adversary() {
    let mut enemy = Enemy::spawn(Direction::Right, 600_000, 1_000, 0, &view());
    enemy.x = 300_000;
    assert_eq!(
        enemy.draw(),
        vec![
            rectangle(312_500, 600_000, 75_000, 25_000, Tint::Orange),
            rectangle(323_333, 600_000, 20_000, 25_000, Tint::Black),
            rectangle(356_666, 600_000, 20_000, 25_000, Tint::Black),
            circle(312_500, 612_500, 12_500, Tint::Orange),
            circle(387_500, 612_500, 12_500, Tint::Orange),
            circle(350_000, 587_500, 12_500, Tint::LightGray),
            circle(350_000, 637_500, 12_500, Tint::LightGray),
        ]
    );
}

#[test]
fn a_weak_adversary_is_red() {
    assert_eq!(ENEMY_WEAK_HP, 25);
    let mut enemy = Enemy::spawn(Direction::Down, 300_000, 1_000, 0, &view());
    enemy.hp = 26;
    assert_eq!(enemy.draw()[0], rectangle(300_000, 1_212_500, 25_000, 75_000, Tint::Orange));
    enemy.hp = 25;
    assert_eq!(enemy.draw()[0], rectangle(300_000, 1_212_500, 25_000, 75_000, Tint::Red));
    assert_eq!(enemy.draw()[3], circle(312_500, 1_212_500, 12_500, Tint::Red));
    assert_eq!(enemy.draw()[5], circle(287_500, 1_250_000, 12_500, Tint::LightGray));
    enemy.hp = 0;
    assert_eq!(enemy.draw()[0], rectangle(300_000, 1_212_500, 25_000, 75_000, Tint::Red));
}

#[test]
fn a_block_is_a_magenta_rectangle() {
    let block = Terrain::new(10_000, 20_000, 60_000, 90_000, TerrainKind::Block);
    assert_eq!(block.draw(), vec![rectangle(10_000, 20_000, 60_000, 90_000, Tint::Magenta)]);
}

#[test]
fn the_site_of_an_objective_is_a_light_rectangle() {
    let site = Terrain::new(10_000, 20_000, 60_000, 90_000, TerrainKind::Objective);
    assert_eq!(site.draw(), vec![rectangle(10_000, 20_000, 60_000, 90_000, Tint::LightGray)]);
}

#[test]
fn a_flower_has_a_stem_and_six_petals() {
    let flower = Terrain::new(10_000, 20_000, 60_000, 90_000, TerrainKind::Flower);
    assert_eq!(
        flower.draw(),
        vec![
            rectangle(25_000, 50_000, 30_000, 60_000, Tint::Green),
            circle(60_000, 50_000, 12_000, Tint::Yellow),
            circle(50_000, 67_320, 12_000, Tint::Yellow),
            circle(30_000, 67_320, 12_000, Tint::Yellow),
            circle(20_000, 50_000, 12_000, Tint::Yellow),
            circle(30_000, 32_680, 12_000, Tint::Yellow),
            circle(50_000, 32_680, 12_000, Tint::Yellow),
            circle(40_000, 50_000, 12_000, Tint::White),
        ]
    );
}

#[test]
fn a_hive_is_a_mound_of_five_layers() {
    let hive = Hive::new(200_000, 300_000);
    let honey = Tint::Honey { green: 720 };
    assert_eq!(
        hive.draw(),
        vec![
            rectangle(200_000, 380_000, 100_000, 20_000, honey),
            circle(200_000, 390_000, 10_000, honey),
            circle(300_000, 390_000, 10_000, honey),
            rectangle(207_500, 360_000, 85_000, 20_000, honey),
            circle(207_500, 370_000, 10_000, honey),
            circle(292_500, 370_000, 10_000, honey),
            rectangle(215_000, 340_000, 70_000, 20_000, honey),
            circle(215_000, 350_000, 10_000, honey),
            circle(285_000, 350_000, 10_000, honey),
            rectangle(222_500, 320_000, 55_000, 20_000, honey),
            circle(222_500, 330_000, 10_000, honey),
            circle(277_500, 330_000, 10_000, honey),
            rectangle(230_000, 300_000, 40_000, 20_000, honey),
            circle(230_000, 310_000, 10_000, honey),
            circle(270_000, 310_000, 10_000, honey),
        ]
    );
}

#[test]
fn the_green_of_a_hive_fades_with_its_hit_points() {
    let mut hive = Hive::new(0, 0);
    let green = |hive: &Hive| match hive.draw()[0] {
        Shape::Rectangle { tint: Tint::Honey { green }, .. } => green,
        _ => panic!("the ground layer of a hive is a rectangle in honey"),
    };
    assert_eq!(green(&hive), 720);
    hive.hp = 4;
    assert_eq!(green(&hive), 540);
    hive.hp = 3;
    assert_eq!(green(&hive), 360);
    hive.hp = 2;
    assert_eq!(green(&hive), 180);
    hive.hp = 1;
    assert_eq!(green(&hive), 0);
    hive.hp = 0;
    assert_eq!(green(&hive), 0);
    hive.max_hp = 0;
    assert_eq!(green(&hive), 0);
}

#[test]
fn the_world_is_painted_in_layers() {
    let mut world = World::new(&view());
    let enemy = Enemy::spawn(Direction::Left, 5, 1_000, 0, &view());
    let flower = Terrain::new(10_000, 20_000, 60_000, 90_000, TerrainKind::Flower);
    let hive = Hive::new(200_000, 300_000);
    let projectile = world.player.shoot(Direction::Up);
    world.enemies = vec![enemy, enemy];
    world.terrain = vec![flower];
    world.hives = vec![hive];
    world.projectiles = vec![projectile];
    let mut expected: Vec<Shape> = Vec::new();
    expected.extend(enemy.draw());
    expected.extend(enemy.draw());
    expected.extend(flower.draw());
    expected.extend(hive.draw());
    expected.extend(world.player.draw());
    expected.extend(projectile.draw());
    assert_eq!(world.draw(), expected);
    assert_eq!(expected.len(), 7 + 7 + 8 + 15 + 5 + 1);
}

#[test]
fn an_empty_world_shows_the_player() {
    let world = World::new(&view());
    assert_eq!(world.draw(), world.player.draw());
}

#[test]
fn draw_all_adds_to_the_canvas() {
    let hives = vec![Hive::new(0, 0), Hive::new(500_000, 0)];
    let mut canvas = vec![circle(1, 2, 3, Tint::Green)];
    draw_all(&hives, &mut canvas);
    assert_eq!(canvas.len(), 31);
    assert_eq!(canvas[0], circle(1, 2, 3, Tint::Green));
    assert_eq!(canvas[1..16].to_vec(), hives[0].draw());
    assert_eq!(canvas[16..].to_vec(), hives[1].draw());
}

#[test]
fn negative_extents_have_no_picture() {
    let mut world = World::new(&view());
    assert!(world.is_presentable());
    world.hives = vec![Hive::new(0, 0)];
    world.hives[0].width = -1;
    assert!(!world.hives[0].is_presentable());
    assert!(!all_presentable(&world.hives));
    assert!(!world.is_presentable());
    world.hives[0].width = 0;
    assert!(world.is_presentable());
    world.player.radius = -1;
    assert!(!world.is_presentable());
    world.player.radius = 0;
    world.projectiles = vec![world.player.shoot(Direction::Up)];
    world.projectiles[0].radius = -1;
    assert!(!world.is_presentable());
    world.projectiles[0].radius = 0;
    world.enemies = vec![Enemy::spawn(Direction::Left, 5, 1_000, 0, &view())];
    world.enemies[0].height = -1;
    assert!(!world.is_presentable());
    world.enemies[0].height = 0;
    world.terrain = vec![Terrain::new(0, 0, 0, -1, TerrainKind::Block)];
    assert!(!world.is_presentable());
    world.terrain[0].height = 0;
    assert!(world.is_presentable());
}
