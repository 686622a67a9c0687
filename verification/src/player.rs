//! The player and the projectiles it fires.

use vstd::prelude::*;
use crate::actor::{Actor, Mobile};
use crate::geometry::{BoundingBox, Direction, Rect, Vec2, Viewport};
use crate::input::Input;
use crate::units::{saturate, saturate_i64, saturating_sum, Millis};

verus! {

/// Radius of the player, in units.
pub const PLAYER_RADIUS: i32 = 25_000;

/// Distance that the player covers per frame along each pressed axis.
pub const PLAYER_SPEED: i32 = 10_000;

/// Hit points of a fresh player.
pub const PLAYER_MAX_HP: i32 = 3;

/// Damage that each of the player's projectiles deals.
pub const PLAYER_DAMAGE: u32 = 25;

/// Number of projectiles that may be in flight at once.
pub const MAX_PROJECTILES: usize = 20;

/// Distance that a projectile covers per frame.
pub const PROJECTILE_SPEED: i32 = 10_000;

/// Radius of a projectile, in units.
pub const PROJECTILE_RADIUS: i32 = 20_000;

/// Time for which the player is immune after contact with an adversary.
pub const INVULNERABLE_MS: u64 = 1000;

/// Whether the player can currently be hurt.
#[derive(Clone, Copy, Debug, PartialEq, Eq, Structural)]
pub enum PlayerState {
    Normal,
    /// Immune to contact damage until the clock has passed the given time.
    Invulnerable(Millis),
}

#[derive(Clone, Copy, Debug, PartialEq, Eq, Structural)]
pub struct Player {
    pub hp: i32,
    pub max_hp: i32,
    pub x: i32,
    pub y: i32,
    pub radius: i32,
    pub speed: i32,
    pub max_projectiles: usize,
    pub damage: u32,
    pub state: PlayerState,
    pub direction: Direction,
}

/// The box around a circle with centre (`x`, `y`).
pub open spec fn circle_bounds(x: i32, y: i32, radius: i32) -> Rect {
    Rect { x: x - radius, y: y - radius, w: 2 * radius, h: 2 * radius }
}

fn circle_box(x: i32, y: i32, radius: i32) -> (bb: BoundingBox)
    ensures
        bb@ == circle_bounds(x, y, radius),
        bb@.in_space(),
{
    BoundingBox {
        x: x as i64 - radius as i64,
        y: y as i64 - radius as i64,
        w: 2 * (radius as i64),
        h: 2 * (radius as i64),
    }
}

/// The time at which immunity granted at `now` runs out.
pub open spec fn immunity_end(now: Millis) -> Millis {
    if now + INVULNERABLE_MS > u64::MAX {
        u64::MAX
    } else {
        (now + INVULNERABLE_MS) as u64
    }
}

impl Player {
    /// A player at full health in the middle of the playfield.
    pub open spec fn fresh(view: Viewport) -> Player {
        Player {
            hp: PLAYER_MAX_HP,
            max_hp: PLAYER_MAX_HP,
            x: (view.width / 2) as i32,
            y: (view.height / 2) as i32,
            radius: PLAYER_RADIUS,
            speed: PLAYER_SPEED,
            max_projectiles: MAX_PROJECTILES,
            damage: PLAYER_DAMAGE,
            state: PlayerState::Normal,
            direction: Direction::Up,
        }
    }

    pub fn new(view: &Viewport) -> (player: Player)
        requires
            view.wf(),
        ensures
            player == Player::fresh(*view),
            player.wf(),
    {
        Player {
            hp: PLAYER_MAX_HP,
            max_hp: PLAYER_MAX_HP,
            x: view.width / 2,
            y: view.height / 2,
            radius: PLAYER_RADIUS,
            speed: PLAYER_SPEED,
            max_projectiles: MAX_PROJECTILES,
            damage: PLAYER_DAMAGE,
            state: PlayerState::Normal,
            direction: Direction::Up,
        }
    }

    /// The displacement that the held movement keys ask for: the player's
    /// speed along each pressed axis, opposite keys cancelling.
    pub open spec fn heading(self, input: Input) -> Vec2 {
        Vec2::saturated(
            (if input.move_right { self.speed as int } else { 0 })
                - (if input.move_left { self.speed as int } else { 0 }),
            (if input.move_down { self.speed as int } else { 0 })
                - (if input.move_up { self.speed as int } else { 0 }),
        )
    }

    /// The direction that the player faces after the movement keys are read
    /// in the order up, down, right, left: the last one held wins.
    pub open spec fn facing(self, input: Input) -> Direction {
        if input.move_left {
            Direction::Left
        } else if input.move_right {
            Direction::Right
        } else if input.move_down {
            Direction::Down
        } else if input.move_up {
            Direction::Up
        } else {
            self.direction
        }
    }

    /// Reads the movement keys: turns the player and returns the
    /// displacement asked for.
    pub fn handle_input(&mut self, input: &Input) -> (desired: Vec2)
        ensures
            desired == old(self).heading(*input),
            *final(self) == (Player { direction: old(self).facing(*input), ..*old(self) }),
    {
        let mut dx: i64 = 0;
        let mut dy: i64 = 0;
        if input.move_up {
            dy = dy - self.speed as i64;
            self.direction = Direction::Up;
        }
        if input.move_down {
            dy = dy + self.speed as i64;
            self.direction = Direction::Down;
        }
        if input.move_right {
            dx = dx + self.speed as i64;
            self.direction = Direction::Right;
        }
        if input.move_left {
            dx = dx - self.speed as i64;
            self.direction = Direction::Left;
        }
        Vec2 { x: saturate_i64(dx), y: saturate_i64(dy) }
    }

    /// The projectile that leaves the player's centre in `direction`.
    pub open spec fn shot(self, direction: Direction) -> Projectile {
        Projectile {
            active: true,
            x: self.x,
            y: self.y,
            radius: PROJECTILE_RADIUS,
            damage: self.damage,
            direction,
            velocity: Vec2 {
                x: (direction.unit().x * PROJECTILE_SPEED) as i32,
                y: (direction.unit().y * PROJECTILE_SPEED) as i32,
            },
        }
    }

    pub fn shoot(&self, direction: Direction) -> (projectile: Projectile)
        ensures
            projectile == self.shot(direction),
            projectile.wf(),
    {
        let unit = direction.unit_vec();
        Projectile {
            active: true,
            x: self.x,
            y: self.y,
            radius: PROJECTILE_RADIUS,
            damage: self.damage,
            direction,
            velocity: Vec2 { x: unit.x * PROJECTILE_SPEED, y: unit.y * PROJECTILE_SPEED },
        }
    }

    /// The player after contact with an adversary at time `now`: a player in
    /// the normal state loses one hit point and becomes immune for
    /// [`INVULNERABLE_MS`]; an immune player is left as it is.
    pub open spec fn touched(self, now: Millis) -> Player {
        match self.state {
            PlayerState::Normal => Player {
                hp: if self.hp > 0 { (self.hp - 1) as i32 } else { self.hp },
                state: PlayerState::Invulnerable(immunity_end(now)),
                ..self
            },
            PlayerState::Invulnerable(_) => self,
        }
    }

    /// Applies contact with an adversary at time `now`.
    pub fn touch(&mut self, now: Millis)
        ensures
            *final(self) == old(self).touched(now),
            old(self).wf() ==> final(self).wf(),
    {
        match self.state {
            PlayerState::Normal => {
                if self.hp > 0 {
                    self.hp = self.hp - 1;
                }
                self.state = PlayerState::Invulnerable(now.saturating_add(INVULNERABLE_MS));
            },
            PlayerState::Invulnerable(_) => {},
        }
    }
}

impl Actor for Player {
    /// The hit points lie between none and the most; the radius is positive
    /// and the speed not negative.
    open spec fn wf(&self) -> bool {
        &&& 0 <= self.hp <= self.max_hp
        &&& self.radius > 0
        &&& self.speed >= 0
    }

    fn is_valid(&self) -> (ok: bool) {
        0 <= self.hp && self.hp <= self.max_hp && self.radius > 0 && self.speed >= 0
    }

    /// The player is in the game while it has a hit point.
    open spec fn alive(&self) -> bool {
        self.hp > 0
    }

    fn is_alive(&self) -> (r: bool) {
        self.hp > 0
    }

    open spec fn bounds(&self) -> Rect {
        circle_bounds(self.x, self.y, self.radius)
    }

    /// Immunity ends once the clock has passed its end.
    open spec fn ticked(self, now: Millis) -> Player {
        match self.state {
            PlayerState::Invulnerable(until) if until < now => Player {
                state: PlayerState::Normal,
                ..self
            },
            _ => self,
        }
    }

    fn tick(&mut self, now: Millis) {
        if let PlayerState::Invulnerable(until) = self.state {
            if until < now {
                self.state = PlayerState::Normal;
            }
        }
    }

    fn bounding_box(&self) -> (bb: BoundingBox) {
        circle_box(self.x, self.y, self.radius)
    }
}

impl Mobile for Player {
    /// The centre of the player.
    open spec fn position(&self) -> Vec2 {
        Vec2 { x: self.x, y: self.y }
    }

    fn x(&self) -> (x: i32) {
        self.x
    }

    fn y(&self) -> (y: i32) {
        self.y
    }

    open spec fn moved(self, vector: Vec2, now: Millis) -> Player {
        Player { x: saturate(self.x + vector.x), y: saturate(self.y + vector.y), ..self }
    }

    fn move_by(&mut self, vector: Vec2, now: Millis) {
        self.x = saturating_sum(self.x, vector.x);
        self.y = saturating_sum(self.y, vector.y);
    }
}

/// A projectile in straight flight.
#[derive(Clone, Copy, Debug, PartialEq, Eq, Structural)]
pub struct Projectile {
    /// False once the projectile has hit something or left the playfield.
    pub active: bool,
    pub x: i32,
    pub y: i32,
    pub radius: i32,
    pub damage: u32,
    pub direction: Direction,
    pub velocity: Vec2,
}

impl Actor for Projectile {
    /// The radius is positive.
    open spec fn wf(&self) -> bool {
        self.radius > 0
    }

    fn is_valid(&self) -> (ok: bool) {
        self.radius > 0
    }

    /// A projectile is in the game until it is spent.
    open spec fn alive(&self) -> bool {
        self.active
    }

    fn is_alive(&self) -> (r: bool) {
        self.active
    }

    open spec fn bounds(&self) -> Rect {
        circle_bounds(self.x, self.y, self.radius)
    }

    /// One frame of flight at the projectile's fixed velocity.
    open spec fn ticked(self, now: Millis) -> Projectile {
        Projectile {
            x: saturate(self.x + self.velocity.x),
            y: saturate(self.y + self.velocity.y),
            ..self
        }
    }

    fn tick(&mut self, now: Millis) {
        self.x = saturating_sum(self.x, self.velocity.x);
        self.y = saturating_sum(self.y, self.velocity.y);
    }

    fn bounding_box(&self) -> (bb: BoundingBox) {
        circle_box(self.x, self.y, self.radius)
    }
}

} // verus!
