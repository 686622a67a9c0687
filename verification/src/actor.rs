//! What every entity of the simulation offers: a bounding box, and for the
//! mobile ones translation, confinement to the playfield and sliding along
//! static colliders.

use vstd::prelude::*;
use crate::geometry::{min, BoundingBox, Rect, Vec2, Viewport};
use crate::units::{magnitude, saturate_i128, Millis};

verus! {

/// The horizontal displacement `dx` of a mover, corrected against a collider.
///
/// Where the mover, displaced by `dx` alone, meets the collider over a
/// positive height, the displacement changes by the width of the meeting:
/// towards the right where the displaced mover's left edge lies in the
/// collider, towards the left otherwise.
pub open spec fn slide_x(mover: Rect, dx: int, collider: Rect) -> int {
    if dx == 0 {
        0
    } else {
        match mover.offset(dx, 0).intersect(collider) {
            Some(meeting) => if meeting.h > 0 {
                if meeting.left() == mover.left() + dx {
                    dx + meeting.w
                } else {
                    dx - meeting.w
                }
            } else {
                dx
            },
            None => dx,
        }
    }
}

/// The vertical displacement `dy` of a mover, corrected against a collider:
/// the mirror image of [`slide_x`].
pub open spec fn slide_y(mover: Rect, dy: int, collider: Rect) -> int {
    if dy == 0 {
        0
    } else {
        match mover.offset(0, dy).intersect(collider) {
            Some(meeting) => if meeting.w > 0 {
                if meeting.top() == mover.top() + dy {
                    dy + meeting.h
                } else {
                    dy - meeting.h
                }
            } else {
                dy
            },
            None => dy,
        }
    }
}

/// The displacement `desired` of a mover, corrected on each axis
/// independently against one collider.
pub open spec fn resolve(mover: Rect, desired: Vec2, collider: Rect) -> Vec2 {
    Vec2::saturated(
        slide_x(mover, desired.x as int, collider),
        slide_y(mover, desired.y as int, collider),
    )
}

/// The least translation along one axis that brings the interval from
/// `low` to `high` back between 0 and `limit`; an interval that begins
/// below 0 is moved to begin there.
pub open spec fn nudge(low: int, high: int, limit: int) -> int {
    if low < 0 {
        -low
    } else if high > limit {
        limit - high
    } else {
        0
    }
}

/// The least translation that brings `bounds` back inside the playfield,
/// each component saturated to the coordinate range.
pub open spec fn confinement(bounds: Rect, view: Viewport) -> Vec2 {
    Vec2::saturated(
        nudge(bounds.left(), bounds.right(), view.width as int),
        nudge(bounds.top(), bounds.bottom(), view.height as int),
    )
}

/// An entity with a place on the playfield.
pub trait Actor: Sized {
    /// The rectangle that the entity occupies.
    spec fn bounds(&self) -> Rect;

    /// Whether the entity's extents, speed and hit points are within the
    /// bounds that the simulation keeps them in.
    spec fn wf(&self) -> bool;

    fn is_valid(&self) -> (ok: bool)
        ensures
            ok == self.wf(),
    ;

    /// Whether the entity is still part of the game: one that is not is
    /// removed at the end of the frame.
    spec fn alive(&self) -> bool;

    fn is_alive(&self) -> (r: bool)
        ensures
            r == self.alive(),
    ;

    /// The entity after the passage of one frame that ends at time `now`.
    spec fn ticked(self, now: Millis) -> Self;

    /// Advances the entity's own state by one frame.
    fn tick(&mut self, now: Millis)
        ensures
            *final(self) == old(self).ticked(now),
    ;

    fn bounding_box(&self) -> (bb: BoundingBox)
        ensures
            bb@ == self.bounds(),
            bb@.in_space(),
    ;

    /// Whether the interior of the entity's box meets that of `other`.
    fn collides_with(&self, other: &BoundingBox) -> (hit: bool)
        ensures
            hit == self.bounds().overlaps(other@),
    {
        self.bounding_box().overlaps(other)
    }

    fn fully_onscreen(&self, view: &Viewport) -> (r: bool)
        ensures
            r == self.bounds().fully_onscreen(*view),
    {
        self.bounding_box().fully_onscreen(view)
    }

    fn fully_offscreen(&self, view: &Viewport) -> (r: bool)
        ensures
            r == self.bounds().fully_offscreen(*view),
    {
        self.bounding_box().fully_offscreen(view)
    }
}

/// An entity that moves.
pub trait Mobile: Actor {
    /// Where the entity is.
    spec fn position(&self) -> Vec2;

    fn x(&self) -> (x: i32)
        ensures
            x == self.position().x,
    ;

    fn y(&self) -> (y: i32)
        ensures
            y == self.position().y,
    ;

    /// The entity after a translation by `vector` at time `now`.
    spec fn moved(self, vector: Vec2, now: Millis) -> Self;

    fn move_by(&mut self, vector: Vec2, now: Millis)
        ensures
            *final(self) == old(self).moved(vector, now),
    ;

    /// Brings the entity back inside the playfield by the least translation.
    fn screen_constrain(&mut self, view: &Viewport, now: Millis)
        ensures
            *final(self) == old(self).moved(confinement(old(self).bounds(), *view), now),
    {
        let bb = self.bounding_box();
        let x: i128 = if bb.left() < 0 {
            -bb.left()
        } else if bb.right() > view.width as i128 {
            view.width as i128 - bb.right()
        } else {
            0
        };
        let y: i128 = if bb.top() < 0 {
            -bb.top()
        } else if bb.bottom() > view.height as i128 {
            view.height as i128 - bb.bottom()
        } else {
            0
        };
        self.move_by(Vec2 { x: saturate_i128(x), y: saturate_i128(y) }, now);
    }

    /// Corrects `desired` against one static collider, each axis on its own,
    /// so that the entity slides along the collider instead of stopping.
    fn handle_collision(&self, desired: Vec2, collider: &BoundingBox) -> (corrected: Vec2)
        ensures
            corrected == resolve(self.bounds(), desired, collider@),
    {
        let mine = self.bounding_box();
        let theirs = *collider;
        let mut x: i128 = desired.x as i128;
        let mut y: i128 = desired.y as i128;
        if desired.x != 0 {
            let shifted = mine.offset(Vec2 { x: desired.x, y: 0 });
            if let Some(meeting) = shifted.intersect(&theirs) {
                if meeting.h > 0 {
                    if meeting.left() == shifted.left() {
                        x = x + meeting.w as i128;
                    } else {
                        x = x - meeting.w as i128;
                    }
                }
            }
        }
        if desired.y != 0 {
            let shifted = mine.offset(Vec2 { x: 0, y: desired.y });
            if let Some(meeting) = shifted.intersect(&theirs) {
                if meeting.w > 0 {
                    if meeting.top() == shifted.top() {
                        y = y + meeting.h as i128;
                    } else {
                        y = y - meeting.h as i128;
                    }
                }
            }
        }
        Vec2 { x: saturate_i128(x), y: saturate_i128(y) }
    }
}

/// Each axis is corrected on its own: the correction of one component
/// does not depend on the other, and a component that is zero stays zero.
pub proof fn lemma_axes_independent(mover: Rect, desired: Vec2, collider: Rect)
    ensures
        resolve(mover, desired, collider).x == resolve(
            mover,
            Vec2 { x: desired.x, y: 0 },
            collider,
        ).x,
        resolve(mover, desired, collider).y == resolve(
            mover,
            Vec2 { x: 0, y: desired.y },
            collider,
        ).y,
        desired.x == 0 ==> resolve(mover, desired, collider).x == 0,
        desired.y == 0 ==> resolve(mover, desired, collider).y == 0,
{
}

/// A collider that the displaced mover does not reach leaves the
/// displacement as it is.
pub proof fn lemma_clear_path(mover: Rect, desired: Vec2, collider: Rect)
    requires
        !mover.offset(desired.x as int, 0).touches(collider),
        !mover.offset(0, desired.y as int).touches(collider),
    ensures
        resolve(mover, desired, collider) == desired,
{
}

/// What is left of the step `step` along one axis towards a wall that lies
/// at the distance `gap`: the step itself, or the gap where that is less.
pub open spec fn stopped(step: int, gap: int) -> int {
    if step > 0 {
        min(step, gap)
    } else {
        -min(-step, gap)
    }
}

/// A mover to the left or right of a wall, level with it over a positive
/// height and moving towards it, keeps of its horizontal displacement what
/// takes it to the wall, and its vertical displacement of zero.
pub proof fn lemma_slide_x_stops_at_wall(mover: Rect, desired: Vec2, wall: Rect)
    requires
        mover.solid(),
        wall.solid(),
        desired.y == 0,
        mover.top() < wall.bottom(),
        wall.top() < mover.bottom(),
        desired.x > 0 ==> {
            &&& mover.right() <= wall.left()
            &&& mover.left() + desired.x < wall.left()
            &&& mover.right() + desired.x <= wall.right()
        },
        desired.x < 0 ==> {
            &&& wall.right() <= mover.left()
            &&& wall.right() < mover.right() + desired.x
            &&& wall.left() <= mover.left() + desired.x
        },
    ensures
        resolve(mover, desired, wall).y == 0,
        desired.x > 0 ==> resolve(mover, desired, wall).x == stopped(
            desired.x as int,
            wall.left() - mover.right(),
        ),
        desired.x < 0 ==> resolve(mover, desired, wall).x == stopped(
            desired.x as int,
            mover.left() - wall.right(),
        ),
        magnitude(resolve(mover, desired, wall).x as int) <= magnitude(desired.x as int),
{
}

/// A mover above or below a wall, level with it over a positive width and
/// moving towards it, keeps of its vertical displacement what takes it to
/// the wall, and its horizontal displacement of zero.
pub proof fn lemma_slide_y_stops_at_wall(mover: Rect, desired: Vec2, wall: Rect)
    requires
        mover.solid(),
        wall.solid(),
        desired.x == 0,
        mover.left() < wall.right(),
        wall.left() < mover.right(),
        desired.y > 0 ==> {
            &&& mover.bottom() <= wall.top()
            &&& mover.top() + desired.y < wall.top()
            &&& mover.bottom() + desired.y <= wall.bottom()
        },
        desired.y < 0 ==> {
            &&& wall.bottom() <= mover.top()
            &&& wall.bottom() < mover.bottom() + desired.y
            &&& wall.top() <= mover.top() + desired.y
        },
    ensures
        resolve(mover, desired, wall).x == 0,
        desired.y > 0 ==> resolve(mover, desired, wall).y == stopped(
            desired.y as int,
            wall.top() - mover.bottom(),
        ),
        desired.y < 0 ==> resolve(mover, desired, wall).y == stopped(
            desired.y as int,
            mover.top() - wall.bottom(),
        ),
        magnitude(resolve(mover, desired, wall).y as int) <= magnitude(desired.y as int),
{
}

/// A box no larger than the playfield lies within it after the
/// confining translation, provided that translation is within the
/// coordinate range; a box that lies within the playfield is not moved.
pub proof fn lemma_confinement(bounds: Rect, view: Viewport)
    requires
        0 <= bounds.w <= view.width,
        0 <= bounds.h <= view.height,
        i32::MIN <= nudge(bounds.left(), bounds.right(), view.width as int) <= i32::MAX,
        i32::MIN <= nudge(bounds.top(), bounds.bottom(), view.height as int) <= i32::MAX,
    ensures
        bounds.offset(
            confinement(bounds, view).x as int,
            confinement(bounds, view).y as int,
        ).within(view),
        bounds.within(view) ==> confinement(bounds, view).is_zero(),
{
}

} // verus!
