//! The static entities: terrain pieces and hives.

use vstd::prelude::*;
use crate::actor::Actor;
use crate::geometry::{BoundingBox, Rect, Vec2, Viewport};
use crate::random::{between, random_between};
use crate::units::{saturate_i64, Millis};

verus! {

/// Least extent of a random terrain piece.
pub const TERRAIN_MIN_SIZE: i32 = 50_000;

/// Bound on the extent of a random terrain piece.
pub const TERRAIN_MAX_SIZE: i32 = 300_000;

/// Width and height of a hive.
pub const HIVE_SIZE: i32 = 100_000;

/// Hit points of a fresh hive.
pub const HIVE_HP: i32 = 5;

/// What a terrain piece is to a projectile.
#[derive(Clone, Copy, Debug, PartialEq, Eq, Structural)]
pub enum TerrainKind {
    /// Solid: a projectile that meets it is spent.
    Block,
    /// Decoration: projectiles fly over it.
    Flower,
    /// The site of an objective: projectiles fly over it.
    Objective,
}

impl Default for TerrainKind {
    fn default() -> (kind: TerrainKind)
        ensures
            kind == TerrainKind::Block,
    {
        TerrainKind::Block
    }
}

/// The box with top-left corner (`x`, `y`) and the given extents.
pub open spec fn corner_bounds(x: i32, y: i32, width: i32, height: i32) -> Rect {
    Rect { x: x as int, y: y as int, w: width as int, h: height as int }
}

pub(crate) fn corner_box(x: i32, y: i32, width: i32, height: i32) -> (bb: BoundingBox)
    ensures
        bb@ == corner_bounds(x, y, width, height),
        bb@.in_space(),
{
    BoundingBox { x: x as i64, y: y as i64, w: width as i64, h: height as i64 }
}

/// A static obstacle or decoration.
#[derive(Clone, Copy, Debug, PartialEq, Eq, Structural)]
pub struct Terrain {
    pub x: i32,
    pub y: i32,
    pub width: i32,
    pub height: i32,
    pub kind: TerrainKind,
}

impl Terrain {
    /// What holds of every piece that [`Terrain::random`] may return for
    /// the playfield `view`: a block of bounded extent whose corner was
    /// drawn between the origin and the last place where the piece fits.
    pub open spec fn scattered(self, view: Viewport) -> bool {
        &&& self.kind == TerrainKind::Block
        &&& TERRAIN_MIN_SIZE <= self.width <= TERRAIN_MAX_SIZE
        &&& TERRAIN_MIN_SIZE <= self.height <= TERRAIN_MAX_SIZE
        &&& between(0, view.width - self.width, self.x as int)
        &&& between(0, view.height - self.height, self.y as int)
    }

    pub fn new(x: i32, y: i32, width: i32, height: i32, kind: TerrainKind) -> (terrain: Terrain)
        ensures
            terrain == (Terrain { x, y, width, height, kind }),
    {
        Terrain { x, y, width, height, kind }
    }

    /// A block of random extent at a random place of the playfield.
    pub fn random(view: &Viewport) -> (terrain: Terrain)
        requires
            view.wf(),
        ensures
            terrain.scattered(*view),
            terrain.wf(),
    {
        let width: i32 = random_between(TERRAIN_MIN_SIZE, TERRAIN_MAX_SIZE);
        let height: i32 = random_between(TERRAIN_MIN_SIZE, TERRAIN_MAX_SIZE);
        let x: i32 = random_between(0, view.width - width);
        let y: i32 = random_between(0, view.height - height);
        Terrain::new(x, y, width, height, TerrainKind::default())
    }

    /// Whether a projectile that meets this piece is spent.
    pub fn stops_projectiles(&self) -> (r: bool)
        ensures
            r == (self.kind == TerrainKind::Block),
    {
        match self.kind {
            TerrainKind::Block => true,
            _ => false,
        }
    }
}

impl Actor for Terrain {
    /// The extents are positive.
    open spec fn wf(&self) -> bool {
        self.width > 0 && self.height > 0
    }

    fn is_valid(&self) -> (ok: bool) {
        self.width > 0 && self.height > 0
    }

    /// Terrain stays for the whole stage.
    open spec fn alive(&self) -> bool {
        true
    }

    fn is_alive(&self) -> (r: bool) {
        true
    }

    open spec fn bounds(&self) -> Rect {
        corner_bounds(self.x, self.y, self.width, self.height)
    }

    /// Terrain does not change.
    open spec fn ticked(self, now: Millis) -> Terrain {
        self
    }

    fn tick(&mut self, now: Millis) {
    }

    fn bounding_box(&self) -> (bb: BoundingBox) {
        corner_box(self.x, self.y, self.width, self.height)
    }
}

/// An objective that the player defends.
#[derive(Clone, Copy, Debug, PartialEq, Eq, Structural)]
pub struct Hive {
    pub x: i32,
    pub y: i32,
    pub width: i32,
    pub height: i32,
    pub max_hp: i32,
    pub hp: i32,
}

impl Hive {
    /// A hive at full health with its top-left corner at (`x`, `y`).
    pub open spec fn fresh(x: i32, y: i32) -> Hive {
        Hive { x, y, width: HIVE_SIZE, height: HIVE_SIZE, max_hp: HIVE_HP, hp: HIVE_HP }
    }

    /// What holds of every hive that [`Hive::random`] may return for the
    /// playfield `view`.
    pub open spec fn scattered(self, view: Viewport) -> bool {
        &&& self == Hive::fresh(self.x, self.y)
        &&& between(0, view.width - HIVE_SIZE, self.x as int)
        &&& between(0, view.height - HIVE_SIZE, self.y as int)
    }

    pub fn new(x: i32, y: i32) -> (hive: Hive)
        ensures
            hive == Hive::fresh(x, y),
            hive.wf(),
    {
        Hive { x, y, width: HIVE_SIZE, height: HIVE_SIZE, max_hp: HIVE_HP, hp: HIVE_HP }
    }

    /// A hive at full health at a random place of the playfield.
    pub fn random(view: &Viewport) -> (hive: Hive)
        requires
            view.wf(),
        ensures
            hive.scattered(*view),
            hive.wf(),
    {
        let x: i32 = random_between(0, view.width - HIVE_SIZE);
        let y: i32 = random_between(0, view.height - HIVE_SIZE);
        Hive::new(x, y)
    }

    /// The middle of the hive, which adversaries make for.
    pub open spec fn midpoint(self) -> Vec2 {
        Vec2::saturated(self.x + self.width / 2, self.y + self.height / 2)
    }

    pub fn center(&self) -> (c: Vec2)
        requires
            self.width >= 0,
            self.height >= 0,
        ensures
            c == self.midpoint(),
    {
        Vec2 {
            x: saturate_i64(self.x as i64 + (self.width / 2) as i64),
            y: saturate_i64(self.y as i64 + (self.height / 2) as i64),
        }
    }

    /// The hive after an adversary has reached it: one hit point less,
    /// unless none is left.
    pub open spec fn struck(self) -> Hive {
        Hive { hp: if self.hp > 0 { (self.hp - 1) as i32 } else { self.hp }, ..self }
    }

    /// Takes one hit point from the hive, unless none is left.
    pub fn strike(&mut self)
        ensures
            *final(self) == old(self).struck(),
            old(self).wf() ==> final(self).wf(),
    {
        if self.hp > 0 {
            self.hp = self.hp - 1;
        }
    }
}

impl Actor for Hive {
    /// The extents are positive and the hit points lie between none and the
    /// most.
    open spec fn wf(&self) -> bool {
        &&& self.width > 0
        &&& self.height > 0
        &&& 0 <= self.hp <= self.max_hp
    }

    fn is_valid(&self) -> (ok: bool) {
        self.width > 0 && self.height > 0 && 0 <= self.hp && self.hp <= self.max_hp
    }

    /// A hive stands while it has a hit point.
    open spec fn alive(&self) -> bool {
        self.hp > 0
    }

    fn is_alive(&self) -> (r: bool) {
        self.hp > 0
    }

    open spec fn bounds(&self) -> Rect {
        corner_bounds(self.x, self.y, self.width, self.height)
    }

    /// A hive does nothing by itself.
    open spec fn ticked(self, now: Millis) -> Hive {
        self
    }

    fn tick(&mut self, now: Millis) {
    }

    fn bounding_box(&self) -> (bb: BoundingBox) {
        corner_box(self.x, self.y, self.width, self.height)
    }
}

} // verus!
