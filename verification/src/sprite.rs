//! What each entity looks like: lists of plain shapes, in units, that a
//! renderer paints in order.

use vstd::prelude::*;
use crate::actor::Actor;
use crate::enemy::Enemy;
use crate::geometry::Direction;
use crate::player::{Player, PlayerState, Projectile};
use crate::terrain::{Hive, Terrain, TerrainKind};
use crate::world::World;

verus! {

/// A point of the playfield, in units.
#[derive(Clone, Copy, Debug, PartialEq, Eq, Structural)]
pub struct Point {
    pub x: i64,
    pub y: i64,
}

/// The colours of the game.
#[derive(Clone, Copy, Debug, PartialEq, Eq, Structural)]
pub enum Tint {
    Black,
    White,
    Yellow,
    Gray,
    LightGray,
    Red,
    Orange,
    Magenta,
    Green,
    /// The colour of a hive: nine tenths red and the given thousandths of
    /// green.
    Honey { green: i64 },
}

/// A filled shape.
#[derive(Clone, Copy, Debug, PartialEq, Eq, Structural)]
pub enum Shape {
    Circle { centre: Point, radius: i64, tint: Tint },
    Rectangle { corner: Point, width: i64, height: i64, tint: Tint },
    Triangle { a: Point, b: Point, c: Point, tint: Tint },
}

/// The circle with centre (`x`, `y`).
pub open spec fn circle(x: int, y: int, radius: int, tint: Tint) -> Shape {
    Shape::Circle { centre: Point { x: x as i64, y: y as i64 }, radius: radius as i64, tint }
}

/// The rectangle with top-left corner (`x`, `y`).
pub open spec fn rectangle(x: int, y: int, width: int, height: int, tint: Tint) -> Shape {
    Shape::Rectangle {
        corner: Point { x: x as i64, y: y as i64 },
        width: width as i64,
        height: height as i64,
        tint,
    }
}

/// The triangle with the three given corners.
pub open spec fn triangle(ax: int, ay: int, bx: int, by: int, cx: int, cy: int, tint: Tint) -> Shape {
    Shape::Triangle {
        a: Point { x: ax as i64, y: ay as i64 },
        b: Point { x: bx as i64, y: by as i64 },
        c: Point { x: cx as i64, y: cy as i64 },
        tint,
    }
}

fn disc(x: i64, y: i64, radius: i64, tint: Tint) -> (shape: Shape)
    ensures
        shape == circle(x as int, y as int, radius as int, tint),
{
    Shape::Circle { centre: Point { x, y }, radius, tint }
}

fn slab(x: i64, y: i64, width: i64, height: i64, tint: Tint) -> (shape: Shape)
    ensures
        shape == rectangle(x as int, y as int, width as int, height as int, tint),
{
    Shape::Rectangle { corner: Point { x, y }, width, height, tint }
}

fn wedge(a: Point, b: Point, c: Point, tint: Tint) -> (shape: Shape)
    ensures
        shape == triangle(a.x as int, a.y as int, b.x as int, b.y as int, c.x as int, c.y as int, tint),
{
    Shape::Triangle { a, b, c, tint }
}

/// An entity that can be painted.
pub trait Drawable {
    /// Whether the entity's extents are such that it has a picture: none of
    /// them is negative.
    spec fn presentable(&self) -> bool;

    fn is_presentable(&self) -> (ok: bool)
        ensures
            ok == self.presentable(),
    ;

    /// The shapes that make up the entity's picture, in the order in which
    /// they are painted.
    spec fn sprite(&self) -> Seq<Shape>;

    fn draw(&self) -> (shapes: Vec<Shape>)
        requires
            self.presentable(),
        ensures
            shapes@ == self.sprite(),
    ;
}

impl Player {
    /// The colour of the player's body: yellow, and gray while immune.
    pub open spec fn tint(self) -> Tint {
        match self.state {
            PlayerState::Normal => Tint::Yellow,
            PlayerState::Invulnerable(_) => Tint::Gray,
        }
    }
}

impl Drawable for Player {
    open spec fn presentable(&self) -> bool {
        self.radius >= 0
    }

    fn is_presentable(&self) -> (ok: bool) {
        self.radius >= 0
    }

    /// A round body; a head on the side that the player faces; a black
    /// stripe across the body and a white wing on either side.
    open spec fn sprite(&self) -> Seq<Shape> {
        let (x, y, r) = (self.x as int, self.y as int, self.radius as int);
        let (head_x, head_y) = match self.direction {
            Direction::Up => (x, y - r),
            Direction::Down => (x, y + r),
            Direction::Left => (x - r, y),
            Direction::Right => (x + r, y),
        };
        if self.direction.is_vertical() {
            seq![
                circle(x, y, r, self.tint()),
                circle(head_x, head_y, r * 6 / 10, self.tint()),
                rectangle(x - r, y - r / 10, 2 * r, r / 5, Tint::Black),
                circle(x - r, y, r / 2, Tint::White),
                circle(x + r, y, r / 2, Tint::White),
            ]
        } else {
            seq![
                circle(x, y, r, self.tint()),
                circle(head_x, head_y, r * 6 / 10, self.tint()),
                rectangle(x - r / 10, y - r, r / 5, 2 * r, Tint::Black),
                circle(x, y - r, r / 2, Tint::White),
                circle(x, y + r, r / 2, Tint::White),
            ]
        }
    }

    fn draw(&self) -> (shapes: Vec<Shape>) {
        let x: i64 = self.x as i64;
        let y: i64 = self.y as i64;
        let r: i64 = self.radius as i64;
        let tint = match self.state {
            PlayerState::Normal => Tint::Yellow,
            PlayerState::Invulnerable(_) => Tint::Gray,
        };
        let mut shapes: Vec<Shape> = Vec::new();
        shapes.push(disc(x, y, r, tint));
        match self.direction {
            Direction::Up | Direction::Down => {
                let head_y: i64 = match self.direction {
                    Direction::Up => y - r,
                    _ => y + r,
                };
                shapes.push(disc(x, head_y, r * 6 / 10, tint));
                shapes.push(slab(x - r, y - r / 10, 2 * r, r / 5, Tint::Black));
                shapes.push(disc(x - r, y, r / 2, Tint::White));
                shapes.push(disc(x + r, y, r / 2, Tint::White));
            },
            Direction::Left | Direction::Right => {
                let head_x: i64 = match self.direction {
                    Direction::Left => x - r,
                    _ => x + r,
                };
                shapes.push(disc(head_x, y, r * 6 / 10, tint));
                shapes.push(slab(x - r / 10, y - r, r / 5, 2 * r, Tint::Black));
                shapes.push(disc(x, y - r, r / 2, Tint::White));
                shapes.push(disc(x, y + r, r / 2, Tint::White));
            },
        }
        shapes
    }
}

impl Drawable for Projectile {
    open spec fn presentable(&self) -> bool {
        self.radius >= 0
    }

    fn is_presentable(&self) -> (ok: bool) {
        self.radius >= 0
    }

    /// A white triangle whose tip points the way of the flight.
    open spec fn sprite(&self) -> Seq<Shape> {
        let (x, y, r) = (self.x as int, self.y as int, self.radius as int);
        seq![
            match self.direction {
                Direction::Up => triangle(x, y - r, x - r / 2, y + r, x + r / 2, y + r, Tint::White),
                Direction::Down => triangle(
                    x,
                    y + r,
                    x - r / 2,
                    y - r,
                    x + r / 2,
                    y - r,
                    Tint::White,
                ),
                Direction::Right => triangle(
                    x + r,
                    y,
                    x - r,
                    y + r / 2,
                    x - r,
                    y - r / 2,
                    Tint::White,
                ),
                Direction::Left => triangle(
                    x - r,
                    y,
                    x + r,
                    y + r / 2,
                    x + r,
                    y - r / 2,
                    Tint::White,
                ),
            },
        ]
    }

    fn draw(&self) -> (shapes: Vec<Shape>) {
        let x: i64 = self.x as i64;
        let y: i64 = self.y as i64;
        let r: i64 = self.radius as i64;
        let (a, b, c): (Point, Point, Point) = match self.direction {
            Direction::Up => (
                Point { x, y: y - r },
                Point { x: x - r / 2, y: y + r },
                Point { x: x + r / 2, y: y + r },
            ),
            Direction::Down => (
                Point { x, y: y + r },
                Point { x: x - r / 2, y: y - r },
                Point { x: x + r / 2, y: y - r },
            ),
            Direction::Right => (
                Point { x: x + r, y },
                Point { x: x - r, y: y + r / 2 },
                Point { x: x - r, y: y - r / 2 },
            ),
            Direction::Left => (
                Point { x: x - r, y },
                Point { x: x + r, y: y + r / 2 },
                Point { x: x + r, y: y - r / 2 },
            ),
        };
        let mut shapes: Vec<Shape> = Vec::new();
        shapes.push(wedge(a, b, c, Tint::White));
        shapes
    }
}

/// Hit points at or below which an adversary is painted red.
pub const ENEMY_WEAK_HP: i32 = 25;

impl Enemy {
    /// The colour of the adversary's body: orange, and red once it is
    /// weak.
    pub open spec fn tint(self) -> Tint {
        if 0 <= self.hp <= ENEMY_WEAK_HP {
            Tint::Red
        } else {
            Tint::Orange
        }
    }
}

impl Drawable for Enemy {
    open spec fn presentable(&self) -> bool {
        self.width >= 0 && self.height >= 0
    }

    fn is_presentable(&self) -> (ok: bool) {
        self.width >= 0 && self.height >= 0
    }

    /// A body with rounded ends along the adversary's direction, two black
    /// stripes across it and a light wing on either side.
    open spec fn sprite(&self) -> Seq<Shape> {
        let (x, y) = (self.x as int, self.y as int);
        let (w, h) = (self.width as int, self.height as int);
        let r = if w <= h {
            w / 2
        } else {
            h / 2
        };
        let tint = self.tint();
        if self.direction.is_vertical() {
            seq![
                rectangle(x, y + r, w, h - 2 * r, tint),
                rectangle(x, y + h / 3 - h / 10, w, h / 5, Tint::Black),
                rectangle(x, y + h * 2 / 3 - h / 10, w, h / 5, Tint::Black),
                circle(x + r, y + r, r, tint),
                circle(x + r, y + h - r, r, tint),
                circle(x - r, y + h / 2, r, Tint::LightGray),
                circle(x + w + r, y + h / 2, r, Tint::LightGray),
            ]
        } else {
            seq![
                rectangle(x + r, y, w - 2 * r, h, tint),
                rectangle(x + w / 3 - w / 10, y, w / 5, h, Tint::Black),
                rectangle(x + w * 2 / 3 - w / 10, y, w / 5, h, Tint::Black),
                circle(x + r, y + r, r, tint),
                circle(x + w - r, y + r, r, tint),
                circle(x + w / 2, y - r, r, Tint::LightGray),
                circle(x + w / 2, y + h + r, r, Tint::LightGray),
            ]
        }
    }

    fn draw(&self) -> (shapes: Vec<Shape>) {
        let x: i64 = self.x as i64;
        let y: i64 = self.y as i64;
        let w: i64 = self.width as i64;
        let h: i64 = self.height as i64;
        let r: i64 = if w <= h {
            w / 2
        } else {
            h / 2
        };
        let tint = if 0 <= self.hp && self.hp <= ENEMY_WEAK_HP {
            Tint::Red
        } else {
            Tint::Orange
        };
        let mut shapes: Vec<Shape> = Vec::new();
        match self.direction {
            Direction::Up | Direction::Down => {
                shapes.push(slab(x, y + r, w, h - 2 * r, tint));
                shapes.push(slab(x, y + h / 3 - h / 10, w, h / 5, Tint::Black));
                shapes.push(slab(x, y + h * 2 / 3 - h / 10, w, h / 5, Tint::Black));
                shapes.push(disc(x + r, y + r, r, tint));
                shapes.push(disc(x + r, y + h - r, r, tint));
                shapes.push(disc(x - r, y + h / 2, r, Tint::LightGray));
                shapes.push(disc(x + w + r, y + h / 2, r, Tint::LightGray));
            },
            Direction::Left | Direction::Right => {
                shapes.push(slab(x + r, y, w - 2 * r, h, tint));
                shapes.push(slab(x + w / 3 - w / 10, y, w / 5, h, Tint::Black));
                shapes.push(slab(x + w * 2 / 3 - w / 10, y, w / 5, h, Tint::Black));
                shapes.push(disc(x + r, y + r, r, tint));
                shapes.push(disc(x + w - r, y + r, r, tint));
                shapes.push(disc(x + w / 2, y - r, r, Tint::LightGray));
                shapes.push(disc(x + w / 2, y + h + r, r, Tint::LightGray));
            },
        }
        shapes
    }
}

impl Drawable for Terrain {
    open spec fn presentable(&self) -> bool {
        self.width >= 0 && self.height >= 0
    }

    fn is_presentable(&self) -> (ok: bool) {
        self.width >= 0 && self.height >= 0
    }

    /// A block is a magenta rectangle and the site of an objective a light
    /// one. A flower is a green stem under a blossom: six yellow petals
    /// around a white middle, a sixth of a turn apart.
    open spec fn sprite(&self) -> Seq<Shape> {
        let (x, y) = (self.x as int, self.y as int);
        let (w, h) = (self.width as int, self.height as int);
        match self.kind {
            TerrainKind::Block => seq![rectangle(x, y, w, h, Tint::Magenta)],
            TerrainKind::Objective => seq![rectangle(x, y, w, h, Tint::LightGray)],
            TerrainKind::Flower => {
                let half = w / 2;
                let (mid_x, mid_y) = (x + half, y + half);
                let reach = w / 3;
                let across = reach / 2;
                let rise = reach * 866 / 1000;
                let petal = w / 5;
                seq![
                    rectangle(x + w / 4, y + half, half, h - half, Tint::Green),
                    circle(mid_x + reach, mid_y, petal, Tint::Yellow),
                    circle(mid_x + across, mid_y + rise, petal, Tint::Yellow),
                    circle(mid_x - across, mid_y + rise, petal, Tint::Yellow),
                    circle(mid_x - reach, mid_y, petal, Tint::Yellow),
                    circle(mid_x - across, mid_y - rise, petal, Tint::Yellow),
                    circle(mid_x + across, mid_y - rise, petal, Tint::Yellow),
                    circle(mid_x, mid_y, petal, Tint::White),
                ]
            },
        }
    }

    fn draw(&self) -> (shapes: Vec<Shape>) {
        let x: i64 = self.x as i64;
        let y: i64 = self.y as i64;
        let w: i64 = self.width as i64;
        let h: i64 = self.height as i64;
        let mut shapes: Vec<Shape> = Vec::new();
        match self.kind {
            TerrainKind::Block => {
                shapes.push(slab(x, y, w, h, Tint::Magenta));
            },
            TerrainKind::Objective => {
                shapes.push(slab(x, y, w, h, Tint::LightGray));
            },
            TerrainKind::Flower => {
                let half: i64 = w / 2;
                let mid_x: i64 = x + half;
                let mid_y: i64 = y + half;
                let reach: i64 = w / 3;
                let across: i64 = reach / 2;
                let rise: i64 = reach * 866 / 1000;
                let petal: i64 = w / 5;
                shapes.push(slab(x + w / 4, y + half, half, h - half, Tint::Green));
                shapes.push(disc(mid_x + reach, mid_y, petal, Tint::Yellow));
                shapes.push(disc(mid_x + across, mid_y + rise, petal, Tint::Yellow));
                shapes.push(disc(mid_x - across, mid_y + rise, petal, Tint::Yellow));
                shapes.push(disc(mid_x - reach, mid_y, petal, Tint::Yellow));
                shapes.push(disc(mid_x - across, mid_y - rise, petal, Tint::Yellow));
                shapes.push(disc(mid_x + across, mid_y - rise, petal, Tint::Yellow));
                shapes.push(disc(mid_x, mid_y, petal, Tint::White));
            },
        }
        shapes
    }
}

/// Number of layers of a hive's picture.
pub const HIVE_LAYERS: i64 = 5;

impl Hive {
    /// The colour of the hive: the green fades as the hit points go, and
    /// is gone with the last but one.
    pub open spec fn tint(self) -> Tint {
        Tint::Honey {
            green: if self.hp >= 1 && self.max_hp >= 1 {
                ((self.hp - 1) * 900 / (self.max_hp as int)) as i64
            } else {
                0
            },
        }
    }

    /// The layer with index `k`, counted from the ground: a bar with a
    /// round cap at either end, each layer narrower than the one below by
    /// three twentieths of the hive's width.
    pub open spec fn layer(self, k: int) -> Seq<Shape> {
        let (w, h) = (self.width as int, self.height as int);
        let thick = h / (HIVE_LAYERS as int);
        let narrowed = k * (w * 3 / 20);
        let x = self.x + narrowed / 2;
        let y = self.y + h - (k + 1) * thick;
        seq![
            rectangle(x, y, w - narrowed, thick, self.tint()),
            circle(x, y + thick / 2, thick / 2, self.tint()),
            circle(x + w - narrowed, y + thick / 2, thick / 2, self.tint()),
        ]
    }

    /// The first `n` layers, from the ground up.
    pub open spec fn layers(self, n: int) -> Seq<Shape>
        decreases n,
    {
        if n <= 0 {
            Seq::empty()
        } else {
            self.layers(n - 1) + self.layer(n - 1)
        }
    }
}

impl Drawable for Hive {
    open spec fn presentable(&self) -> bool {
        self.width >= 0 && self.height >= 0
    }

    fn is_presentable(&self) -> (ok: bool) {
        self.width >= 0 && self.height >= 0
    }

    /// A mound of layers that narrow towards the top.
    open spec fn sprite(&self) -> Seq<Shape> {
        self.layers(HIVE_LAYERS as int)
    }

    fn draw(&self) -> (shapes: Vec<Shape>) {
        let w: i64 = self.width as i64;
        let h: i64 = self.height as i64;
        let tint = Tint::Honey {
            green: if self.hp >= 1 && self.max_hp >= 1 {
                (self.hp as i64 - 1) * 900 / self.max_hp as i64
            } else {
                0
            },
        };
        let thick: i64 = h / HIVE_LAYERS;
        let step: i64 = w * 3 / 20;
        let mut narrowed: i64 = 0;
        let mut y: i64 = self.y as i64 + h;
        let mut shapes: Vec<Shape> = Vec::new();
        let mut k: i64 = 0;
        while k < HIVE_LAYERS
            invariant
                0 <= k <= HIVE_LAYERS,
                self.presentable(),
                w == self.width,
                h == self.height,
                tint == self.tint(),
                thick == h / HIVE_LAYERS,
                step == w * 3 / 20,
                narrowed == k * step,
                y == self.y + h - k * thick,
                shapes@ == self.layers(k as int),
            decreases HIVE_LAYERS - k,
        {
            assert((k + 1) * step == k * step + step && (k + 1) * thick == k * thick + thick)
                by (nonlinear_arith);
            assert(0 <= k * step <= 5 * step && 0 <= k * thick <= 5 * thick) by (nonlinear_arith)
                requires
                    0 <= k <= 5,
                    0 <= step,
                    0 <= thick,
            ;
            y = y - thick;
            let x: i64 = self.x as i64 + narrowed / 2;
            shapes.push(slab(x, y, w - narrowed, thick, tint));
            shapes.push(disc(x, y + thick / 2, thick / 2, tint));
            shapes.push(disc(x + w - narrowed, y + thick / 2, thick / 2, tint));
            narrowed = narrowed + step;
            k = k + 1;
        }
        shapes
    }
}

/// The pictures of the first `n` of `items`, one after the other.
pub open spec fn gallery<D: Drawable>(items: Seq<D>, n: int) -> Seq<Shape>
    decreases n,
{
    if n <= 0 {
        Seq::empty()
    } else {
        gallery(items, n - 1) + items[n - 1].sprite()
    }
}

/// Whether each of `items` has a picture.
pub open spec fn each_presentable<D: Drawable>(items: Seq<D>) -> bool {
    forall|i: int| 0 <= i < items.len() ==> (#[trigger] items[i]).presentable()
}

/// Whether each of `items` has a picture.
pub fn all_presentable<D: Drawable>(items: &Vec<D>) -> (ok: bool)
    ensures
        ok == each_presentable(items@),
{
    let mut i: usize = 0;
    while i < items.len()
        invariant
            i <= items@.len(),
            forall|k: int| 0 <= k < i ==> (#[trigger] items@[k]).presentable(),
        decreases items@.len() - i,
    {
        if !items[i].is_presentable() {
            return false;
        }
        i = i + 1;
    }
    true
}

/// Adds the pictures of `items` to `canvas`, in their order.
pub fn draw_all<D: Drawable>(items: &Vec<D>, canvas: &mut Vec<Shape>)
    requires
        each_presentable(items@),
    ensures
        final(canvas)@ == old(canvas)@ + gallery(items@, items@.len() as int),
{
    let mut i: usize = 0;
    while i < items.len()
        invariant
            i <= items@.len(),
            each_presentable(items@),
            canvas@ == old(canvas)@ + gallery(items@, i as int),
        decreases items@.len() - i,
    {
        let mut picture = items[i].draw();
        canvas.append(&mut picture);
        i = i + 1;
    }
}

impl Drawable for World {
    open spec fn presentable(&self) -> bool {
        &&& self.player.presentable()
        &&& each_presentable(self.enemies@)
        &&& each_presentable(self.terrain@)
        &&& each_presentable(self.hives@)
        &&& each_presentable(self.projectiles@)
    }

    fn is_presentable(&self) -> (ok: bool) {
        self.player.is_presentable() && all_presentable(&self.enemies) && all_presentable(
            &self.terrain,
        ) && all_presentable(&self.hives) && all_presentable(&self.projectiles)
    }

    /// The adversaries, then the terrain, the hives, the player and the
    /// projectiles, so that what comes later is painted over what comes
    /// earlier.
    open spec fn sprite(&self) -> Seq<Shape> {
        gallery(self.enemies@, self.enemies@.len() as int) + gallery(
            self.terrain@,
            self.terrain@.len() as int,
        ) + gallery(self.hives@, self.hives@.len() as int) + self.player.sprite() + gallery(
            self.projectiles@,
            self.projectiles@.len() as int,
        )
    }

    fn draw(&self) -> (shapes: Vec<Shape>) {
        let mut shapes: Vec<Shape> = Vec::new();
        draw_all(&self.enemies, &mut shapes);
        draw_all(&self.terrain, &mut shapes);
        draw_all(&self.hives, &mut shapes);
        let mut player = self.player.draw();
        shapes.append(&mut player);
        draw_all(&self.projectiles, &mut shapes);
        shapes
    }
}

/// A well-formed world has a picture.
pub proof fn lemma_wf_is_presentable(world: World)
    requires
        world.wf(),
    ensures
        world.presentable(),
{
    assert forall|i: int| 0 <= i < world.enemies@.len() implies (#[trigger] world.enemies@[i]).presentable() by {
        assert(world@.enemies[i].wf());
    }
    assert forall|i: int| 0 <= i < world.terrain@.len() implies (#[trigger] world.terrain@[i]).presentable() by {
        assert(world@.terrain[i].wf());
    }
    assert forall|i: int| 0 <= i < world.hives@.len() implies (#[trigger] world.hives@[i]).presentable() by {
        assert(world@.hives[i].wf());
    }
    assert forall|i: int|
        0 <= i < world.projectiles@.len() implies (#[trigger] world.projectiles@[i]).presentable() by {
        assert(world@.projectiles[i].wf());
    }
}

} // verus!
