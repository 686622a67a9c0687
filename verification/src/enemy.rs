//! The adversaries: they make for a hive, slide along terrain, and perish
//! where they reach a hive or stay in one place for too long.

use vstd::prelude::*;
use crate::actor::{Actor, Mobile};
use crate::geometry::{BoundingBox, Direction, Rect, Vec2, Viewport};
use crate::random::{between, pick_one, random_between};
use crate::seek::{
    clamp_length, clamped, lemma_clamped_direction, lemma_clamped_on_axis, lemma_clamped_tight,
    lemma_clamped_within, norm2,
};
use crate::terrain::{corner_bounds, corner_box, Hive};
use crate::units::{magnitude, saturate, saturating_sum, Millis};

verus! {

/// Hit points of a fresh adversary.
pub const ENEMY_HP: i32 = 50;

/// Extent of an adversary across its direction of entry.
pub const ENEMY_SHORT_SIDE: i32 = 25_000;

/// Extent of an adversary along its direction of entry.
pub const ENEMY_LONG_SIDE: i32 = 100_000;

/// Time after which an adversary that has not moved is removed.
pub const IMMOBILE_VOID_TIME_MS: u64 = 5000;

/// A displacement smaller than this on both axes does not count as a move.
pub const MOVE_EPSILON: i32 = 1;

/// An adversary that has a target picks a new one on one frame in this many.
pub const RETARGET_ODDS: i32 = 100;

/// Where an adversary last moved to, and when.
#[derive(Clone, Copy, Debug, PartialEq, Eq, Structural)]
pub struct LastPosition {
    pub x: i32,
    pub y: i32,
    pub at: Millis,
}

/// Where chance has a new adversary enter.
#[derive(Clone, Copy, Debug, PartialEq, Eq, Structural)]
pub struct Entrance {
    /// The side of the playfield.
    pub direction: Direction,
    /// The distance along that side.
    pub along: i32,
}

impl Entrance {
    /// What holds of every entrance that [`Entrance::random`] may return
    /// for the playfield `view`: the distance is between nothing and the
    /// playfield's width, whichever the side.
    pub open spec fn possible(self, view: Viewport) -> bool {
        between(0, view.width as int, self.along as int)
    }

    /// A random side and a random distance along it.
    pub fn random(view: &Viewport) -> (entrance: Entrance)
        ensures
            entrance.possible(*view),
    {
        let sides: Vec<Direction> = vec![
            Direction::Up,
            Direction::Right,
            Direction::Down,
            Direction::Left,
        ];
        let direction = match pick_one(&sides) {
            Some(side) => side,
            None => Direction::Up,
        };
        let along: i32 = random_between(0, view.width);
        Entrance { direction, along }
    }
}

/// What chance decides for one adversary in one frame.
#[derive(Clone, Copy, Debug, PartialEq, Eq)]
pub struct Retarget {
    /// A new target is taken where this is zero.
    pub roll: i32,
    /// The centre of the hive that was picked, if one was.
    pub pick: Option<Vec2>,
}

impl Retarget {
    /// What holds of everything that [`Retarget::random`] may return: the roll
    /// is within the odds, and a pick is made exactly where the roll is zero
    /// and there is a hive, and is the centre of one of the hives.
    pub open spec fn possible(self, hives: Seq<Hive>) -> bool {
        &&& between(0, RETARGET_ODDS as int, self.roll as int)
        &&& (self.pick matches Some(centre) ==> exists|i: int|
            0 <= i < hives.len() && centre == (#[trigger] hives[i]).midpoint())
        &&& (self.pick.is_some() <==> self.roll == 0 && hives.len() > 0)
    }

    /// What leaves an adversary's target as it is.
    pub open spec fn kept() -> Retarget {
        Retarget { roll: 1, pick: None }
    }

    pub fn keep() -> (retarget: Retarget)
        ensures
            retarget == Retarget::kept(),
    {
        Retarget { roll: 1, pick: None }
    }

    /// Asks the random source for the roll, unless the adversary has no
    /// target and takes one in any case, and then for a pick among `hives`;
    /// [`Retarget::decide`] makes the result of the two.
    pub fn random(has_target: bool, hives: &Vec<Hive>) -> (retarget: Retarget)
        requires
            forall|i: int| 0 <= i < hives.len() ==> (#[trigger] hives[i]).wf(),
        ensures
            retarget.possible(hives@),
            !has_target ==> retarget.roll == 0,
            exists|picked: Option<Hive>|
                (picked matches Some(hive) ==> hives@.contains(hive)) && retarget
                    == #[trigger] Retarget::decided(retarget.roll, picked, hives@),
    {
        let roll: i32 = if has_target {
            random_between(0, RETARGET_ODDS)
        } else {
            0
        };
        let picked: Option<Hive> = if roll == 0 {
            pick_one(hives)
        } else {
            None
        };
        proof {
            if let Some(hive) = picked {
                let i = choose|i: int| 0 <= i < hives@.len() && hives@[i] == hive;
                assert(hives[i].wf());
            }
            Retarget::lemma_decided_is_possible(roll, picked, hives@);
        }
        Retarget::decide(roll, picked, hives)
    }

    /// What becomes of a roll and of the hive that the random source has
    /// picked, if it has picked one. With a roll other than zero nothing is
    /// picked. With a roll of zero the pick is the centre of the hive that
    /// was picked, and that of the first hive where none was picked
    /// although there are hives, so that an adversary which is to take a
    /// target gets one whenever a hive stands.
    pub open spec fn decided(roll: i32, picked: Option<Hive>, hives: Seq<Hive>) -> Retarget {
        Retarget {
            roll,
            pick: if roll != 0 {
                None
            } else {
                match picked {
                    Some(hive) => Some(hive.midpoint()),
                    None => if hives.len() > 0 {
                        Some(hives[0].midpoint())
                    } else {
                        None
                    },
                }
            },
        }
    }

    /// Makes the result of a roll and of the hive that was picked among
    /// `hives`, if one was.
    pub fn decide(roll: i32, picked: Option<Hive>, hives: &Vec<Hive>) -> (retarget: Retarget)
        requires
            picked matches Some(hive) ==> hive.wf(),
            forall|i: int| 0 <= i < hives.len() ==> (#[trigger] hives[i]).wf(),
        ensures
            retarget == Retarget::decided(roll, picked, hives@),
    {
        let pick: Option<Vec2> = if roll != 0 {
            None
        } else {
            match picked {
                Some(hive) => Some(hive.center()),
                None => if hives.len() > 0 {
                    Some(hives[0].center())
                } else {
                    None
                },
            }
        };
        Retarget { roll, pick }
    }

    /// A roll within the odds and a pick from among the hives make a result
    /// that is possible for those hives.
    pub proof fn lemma_decided_is_possible(roll: i32, picked: Option<Hive>, hives: Seq<Hive>)
        requires
            between(0, RETARGET_ODDS as int, roll as int),
            picked matches Some(hive) ==> hives.contains(hive),
        ensures
            Retarget::decided(roll, picked, hives).possible(hives),
    {
        if roll == 0 {
            if let Some(hive) = picked {
                let i = choose|i: int| 0 <= i < hives.len() && hives[i] == hive;
                assert(hives[i].midpoint() == hive.midpoint());
            } else if hives.len() > 0 {
                assert(hives[0].midpoint() == hives[0].midpoint());
            }
        }
    }
}

#[derive(Clone, Copy, Debug, PartialEq, Eq)]
pub struct Enemy {
    pub hp: i32,
    pub x: i32,
    pub y: i32,
    pub width: i32,
    pub height: i32,
    pub speed: i32,
    pub direction: Direction,
    /// The point that the adversary makes for.
    pub target: Option<Vec2>,
    pub last_position: LastPosition,
}

impl Enemy {
    /// The adversary that enters from the side named by `direction`, at the
    /// distance `along` along that side.
    pub open spec fn spawned(
        direction: Direction,
        along: i32,
        speed: i32,
        now: Millis,
        view: Viewport,
    ) -> Enemy {
        let x = match direction {
            Direction::Up | Direction::Down => along,
            Direction::Left => (-ENEMY_LONG_SIDE) as i32,
            Direction::Right => view.width,
        };
        let y = match direction {
            Direction::Left | Direction::Right => along,
            Direction::Up => (-ENEMY_SHORT_SIDE) as i32,
            Direction::Down => view.height,
        };
        Enemy {
            hp: ENEMY_HP,
            x,
            y,
            width: if direction.is_vertical() { ENEMY_SHORT_SIDE } else { ENEMY_LONG_SIDE },
            height: if direction.is_vertical() { ENEMY_LONG_SIDE } else { ENEMY_SHORT_SIDE },
            speed,
            direction,
            target: None,
            last_position: LastPosition { x, y, at: now },
        }
    }

    pub fn spawn(direction: Direction, along: i32, speed: i32, now: Millis, view: &Viewport) -> (enemy:
        Enemy)
        ensures
            enemy == Enemy::spawned(direction, along, speed, now, *view),
            speed >= 0 ==> enemy.wf(),
    {
        let (width, height): (i32, i32) = match direction {
            Direction::Up | Direction::Down => (ENEMY_SHORT_SIDE, ENEMY_LONG_SIDE),
            Direction::Left | Direction::Right => (ENEMY_LONG_SIDE, ENEMY_SHORT_SIDE),
        };
        let x: i32 = match direction {
            Direction::Up | Direction::Down => along,
            Direction::Left => 0 - width,
            Direction::Right => view.width,
        };
        let y: i32 = match direction {
            Direction::Left | Direction::Right => along,
            Direction::Up => 0 - width,
            Direction::Down => view.height,
        };
        Enemy {
            hp: ENEMY_HP,
            x,
            y,
            width,
            height,
            speed,
            direction,
            target: None,
            last_position: LastPosition { x, y, at: now },
        }
    }

    /// An adversary of the given speed that enters from a random side at a
    /// random place along it.
    pub fn with_speed(speed: i32, now: Millis, view: &Viewport) -> (enemy: Enemy)
        ensures
            exists|entrance: Entrance| #[trigger]
                entrance.possible(*view) && enemy == Enemy::spawned(
                    entrance.direction,
                    entrance.along,
                    speed,
                    now,
                    *view,
                ),
            speed >= 0 ==> enemy.wf(),
    {
        let entrance = Entrance::random(view);
        Enemy::spawn(entrance.direction, entrance.along, speed, now, view)
    }

    /// The adversary after chance has had its say: it takes the pick for
    /// its target where it has none, or where the roll is zero.
    pub open spec fn aimed(self, retarget: Retarget) -> Enemy {
        if self.target.is_none() || retarget.roll == 0 {
            Enemy { target: retarget.pick, ..self }
        } else {
            self
        }
    }

    /// The displacement that the adversary desires: towards its target,
    /// limited to its speed; none where it has no target.
    pub open spec fn pull(self) -> Vec2 {
        match self.target {
            Some(target) => {
                let (x, y) = clamped(target.x - self.x, target.y - self.y, self.speed as int);
                Vec2 { x: x as i32, y: y as i32 }
            },
            None => Vec2 { x: 0, y: 0 },
        }
    }

    /// Takes a target as `retarget` says and returns the displacement
    /// desired.
    pub fn seek(&mut self, retarget: &Retarget) -> (desired: Vec2)
        requires
            old(self).speed >= 0,
        ensures
            *final(self) == old(self).aimed(*retarget),
            desired == final(self).pull(),
            norm2(desired.x as int, desired.y as int) <= old(self).speed * old(self).speed,
    {
        if self.target.is_none() || retarget.roll == 0 {
            self.target = retarget.pick;
        }
        match self.target {
            Some(target) => {
                let dx: i64 = target.x as i64 - self.x as i64;
                let dy: i64 = target.y as i64 - self.y as i64;
                proof {
                    lemma_clamped_within(dx as int, dy as int, self.speed as int);
                }
                clamp_length(dx, dy, self.speed)
            },
            None => {
                assert(0 <= self.speed * self.speed) by (nonlinear_arith);
                Vec2 { x: 0, y: 0 }
            },
        }
    }

    /// Picks a new target where chance has it so, and returns the
    /// displacement desired.
    pub fn desired_movement(&mut self, hives: &Vec<Hive>) -> (desired: Vec2)
        requires
            old(self).speed >= 0,
            forall|i: int| 0 <= i < hives.len() ==> (#[trigger] hives[i]).wf(),
        ensures
            exists|retarget: Retarget| #[trigger]
                retarget.possible(hives@) && *final(self) == old(self).aimed(retarget),
            desired == final(self).pull(),
            norm2(desired.x as int, desired.y as int) <= old(self).speed * old(self).speed,
    {
        let retarget = Retarget::random(self.target.is_some(), hives);
        self.seek(&retarget)
    }

    /// The adversary after a hit of the given damage.
    pub open spec fn wounded(self, damage: u32) -> Enemy {
        Enemy { hp: if self.hp > damage { (self.hp - damage) as i32 } else { 0 }, ..self }
    }

    /// Takes `damage` hit points from the adversary, down to none.
    pub fn wound(&mut self, damage: u32)
        ensures
            *final(self) == old(self).wounded(damage),
            old(self).wf() ==> final(self).wf(),
    {
        if self.hp as i64 > damage as i64 {
            self.hp = (self.hp as i64 - damage as i64) as i32;
        } else {
            self.hp = 0;
        }
    }

    /// The adversary with no hit point left.
    pub open spec fn destroyed(self) -> Enemy {
        Enemy { hp: 0, ..self }
    }

    /// Whether the adversary has stood in one place for the time after
    /// which it is removed.
    pub open spec fn stalled(self, now: Millis) -> bool {
        &&& self.last_position.x == self.x
        &&& self.last_position.y == self.y
        &&& now - self.last_position.at >= IMMOBILE_VOID_TIME_MS
    }

    /// Whether a displacement is large enough to count as a move.
    pub open spec fn counts_as_move(vector: Vec2) -> bool {
        magnitude(vector.x as int) >= MOVE_EPSILON || magnitude(vector.y as int) >= MOVE_EPSILON
    }
}

impl Actor for Enemy {
    /// The hit points and the speed are not negative and the extents are positive.
    open spec fn wf(&self) -> bool {
        &&& 0 <= self.hp
        &&& self.width > 0
        &&& self.height > 0
        &&& 0 <= self.speed
    }

    fn is_valid(&self) -> (ok: bool) {
        0 <= self.hp && self.width > 0 && self.height > 0 && 0 <= self.speed
    }

    /// An adversary is in the game while it has a hit point.
    open spec fn alive(&self) -> bool {
        self.hp > 0
    }

    fn is_alive(&self) -> (r: bool) {
        self.hp > 0
    }

    open spec fn bounds(&self) -> Rect {
        corner_bounds(self.x, self.y, self.width, self.height)
    }

    /// An adversary that has stalled loses all its hit points.
    open spec fn ticked(self, now: Millis) -> Enemy {
        if self.stalled(now) {
            self.destroyed()
        } else {
            self
        }
    }

    fn tick(&mut self, now: Millis) {
        if self.last_position.x == self.x && self.last_position.y == self.y && now
            >= self.last_position.at && now - self.last_position.at >= IMMOBILE_VOID_TIME_MS {
            self.hp = 0;
        }
    }

    fn bounding_box(&self) -> (bb: BoundingBox) {
        corner_box(self.x, self.y, self.width, self.height)
    }
}

impl Mobile for Enemy {
    /// The top-left corner of the adversary.
    open spec fn position(&self) -> Vec2 {
        Vec2 { x: self.x, y: self.y }
    }

    fn x(&self) -> (x: i32) {
        self.x
    }

    fn y(&self) -> (y: i32) {
        self.y
    }

    /// A displacement that counts as a move is applied and noted with its
    /// time; a smaller one is ignored.
    open spec fn moved(self, vector: Vec2, now: Millis) -> Enemy {
        if Enemy::counts_as_move(vector) {
            let x = saturate(self.x + vector.x);
            let y = saturate(self.y + vector.y);
            Enemy { x, y, last_position: LastPosition { x, y, at: now }, ..self }
        } else {
            self
        }
    }

    fn move_by(&mut self, vector: Vec2, now: Millis) {
        if vector.x >= MOVE_EPSILON || vector.x <= -MOVE_EPSILON || vector.y >= MOVE_EPSILON
            || vector.y <= -MOVE_EPSILON {
            self.x = saturating_sum(self.x, vector.x);
            self.y = saturating_sum(self.y, vector.y);
            self.last_position = LastPosition { x: self.x, y: self.y, at: now };
        }
    }
}

/// An adversary that has not moved for the void time, or longer, loses all
/// its hit points at the next tick, and displacements too small to count as
/// moves do not save it.
pub proof fn lemma_stalled_enemy_dies(enemy: Enemy, nudge: Vec2, nudged_at: Millis, now: Millis)
    requires
        enemy.last_position.x == enemy.x,
        enemy.last_position.y == enemy.y,
        now - enemy.last_position.at >= IMMOBILE_VOID_TIME_MS,
        !Enemy::counts_as_move(nudge),
    ensures
        enemy.ticked(now).hp == 0,
        enemy.moved(nudge, nudged_at).ticked(now).hp == 0,
{
}

/// An adversary whose last move is more recent than the void time keeps
/// its hit points through a tick.
pub proof fn lemma_moving_enemy_survives(enemy: Enemy, vector: Vec2, moved_at: Millis, now: Millis)
    requires
        Enemy::counts_as_move(vector),
        now - moved_at < IMMOBILE_VOID_TIME_MS,
    ensures
        enemy.moved(vector, moved_at).ticked(now) == enemy.moved(vector, moved_at),
{
}

/// The displacement that an adversary desires is no longer than its speed
/// and takes it no further than its target on either axis. Where the target
/// is no further than the speed, it is the whole way to the target. Where
/// the target is further, it falls short of the speed by less than one unit
/// on each axis: the next grid vector outwards is longer than the speed.
pub proof fn lemma_pull_is_clamped(enemy: Enemy, target: Vec2)
    requires
        enemy.speed >= 0,
        enemy.target == Some(target),
    ensures
        norm2(enemy.pull().x as int, enemy.pull().y as int) <= enemy.speed * enemy.speed,
        magnitude(enemy.pull().x as int) <= magnitude(target.x - enemy.x),
        magnitude(enemy.pull().y as int) <= magnitude(target.y - enemy.y),
        norm2(target.x - enemy.x, target.y - enemy.y) <= enemy.speed * enemy.speed ==> enemy.pull().x
            == target.x - enemy.x && enemy.pull().y == target.y - enemy.y,
        norm2(target.x - enemy.x, target.y - enemy.y) > enemy.speed * enemy.speed ==> norm2(
            magnitude(enemy.pull().x as int) + 1,
            magnitude(enemy.pull().y as int) + 1,
        ) > enemy.speed * enemy.speed,
{
    let dx = target.x - enemy.x;
    let dy = target.y - enemy.y;
    lemma_clamped_within(dx, dy, enemy.speed as int);
    lemma_clamped_direction(dx, dy, enemy.speed as int);
    if norm2(dx, dy) > enemy.speed * enemy.speed {
        lemma_clamped_tight(dx, dy, enemy.speed as int);
    }
}

/// An adversary that makes for a target straight along one axis, further
/// off than its speed, desires a displacement of exactly its speed.
pub proof fn lemma_pull_along_axis(enemy: Enemy, target: Vec2)
    requires
        enemy.speed >= 0,
        enemy.target == Some(target),
        target.y == enemy.y,
        magnitude(target.x - enemy.x) > enemy.speed,
    ensures
        enemy.pull().y == 0,
        magnitude(enemy.pull().x as int) == enemy.speed,
        norm2(enemy.pull().x as int, enemy.pull().y as int) == enemy.speed * enemy.speed,
{
    lemma_clamped_on_axis(target.x - enemy.x, enemy.speed as int);
    let step = enemy.pull().x as int;
    assert(step * step == enemy.speed * enemy.speed) by (nonlinear_arith)
        requires
            step == enemy.speed || step == -enemy.speed,
    ;
}

} // verus!
