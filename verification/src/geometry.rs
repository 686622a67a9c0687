//! Vectors, directions and axis-aligned boxes.

use vstd::prelude::*;
use crate::units::saturate;

verus! {

/// A displacement or a point, in units.
#[derive(Clone, Copy, Debug, PartialEq, Eq, Structural)]
pub struct Vec2 {
    pub x: i32,
    pub y: i32,
}

impl Vec2 {
    pub fn new(x: i32, y: i32) -> (v: Vec2)
        ensures
            v == (Vec2 { x, y }),
    {
        Vec2 { x, y }
    }

    pub fn zero() -> (v: Vec2)
        ensures
            v == (Vec2 { x: 0, y: 0 }),
    {
        Vec2 { x: 0, y: 0 }
    }

    /// The vector with the given components, each saturated to the coordinate range.
    pub open spec fn saturated(x: int, y: int) -> Vec2 {
        Vec2 { x: saturate(x), y: saturate(y) }
    }

    pub open spec fn is_zero(self) -> bool {
        self.x == 0 && self.y == 0
    }
}

/// One of the four cardinal directions. `Up` points towards smaller `y`.
#[derive(Clone, Copy, Debug, PartialEq, Eq, Structural)]
pub enum Direction {
    Up,
    Down,
    Left,
    Right,
}

impl Direction {
    /// The unit step in this direction.
    pub open spec fn unit(self) -> Vec2 {
        match self {
            Direction::Up => Vec2 { x: 0, y: -1i32 },
            Direction::Down => Vec2 { x: 0, y: 1 },
            Direction::Left => Vec2 { x: -1i32, y: 0 },
            Direction::Right => Vec2 { x: 1, y: 0 },
        }
    }

    pub fn unit_vec(self) -> (v: Vec2)
        ensures
            v == self.unit(),
    {
        match self {
            Direction::Up => Vec2 { x: 0, y: -1 },
            Direction::Down => Vec2 { x: 0, y: 1 },
            Direction::Left => Vec2 { x: -1, y: 0 },
            Direction::Right => Vec2 { x: 1, y: 0 },
        }
    }

    /// Whether this direction runs along the vertical axis.
    pub open spec fn is_vertical(self) -> bool {
        self == Direction::Up || self == Direction::Down
    }
}

/// The playfield: the rectangle from the origin to (`width`, `height`).
#[derive(Clone, Copy, Debug, PartialEq, Eq, Structural)]
pub struct Viewport {
    pub width: i32,
    pub height: i32,
}

impl Viewport {
    pub open spec fn wf(self) -> bool {
        self.width >= 0 && self.height >= 0
    }

    pub fn is_valid(&self) -> (ok: bool)
        ensures
            ok == self.wf(),
    {
        self.width >= 0 && self.height >= 0
    }
}

/// Bound on the corner and extents of the box of any actor: twice the span
/// of the coordinate range.
pub const SPACE_LIMIT: i64 = 0x2_0000_0000;

/// An axis-aligned rectangle over the integers: the mathematical model of a
/// [`BoundingBox`]. `x` grows to the right and `y` grows downwards.
pub struct Rect {
    pub x: int,
    pub y: int,
    pub w: int,
    pub h: int,
}

impl Rect {
    pub open spec fn left(self) -> int {
        self.x
    }

    pub open spec fn top(self) -> int {
        self.y
    }

    pub open spec fn right(self) -> int {
        self.x + self.w
    }

    pub open spec fn bottom(self) -> int {
        self.y + self.h
    }

    /// Both extents are positive.
    pub open spec fn solid(self) -> bool {
        self.w > 0 && self.h > 0
    }

    /// Corner and extents are small enough that the box can be translated by
    /// any displacement without leaving the range of a [`BoundingBox`].
    pub open spec fn in_space(self) -> bool {
        &&& -SPACE_LIMIT <= self.x <= SPACE_LIMIT
        &&& -SPACE_LIMIT <= self.y <= SPACE_LIMIT
        &&& -SPACE_LIMIT <= self.w <= SPACE_LIMIT
        &&& -SPACE_LIMIT <= self.h <= SPACE_LIMIT
    }

    /// The rectangle translated by (`dx`, `dy`).
    pub open spec fn offset(self, dx: int, dy: int) -> Rect {
        Rect { x: self.x + dx, y: self.y + dy, w: self.w, h: self.h }
    }

    /// The interiors of the two rectangles meet. Rectangles that only share
    /// an edge or a corner do not overlap.
    pub open spec fn overlaps(self, other: Rect) -> bool {
        &&& self.left() < other.right()
        &&& other.left() < self.right()
        &&& self.top() < other.bottom()
        &&& other.top() < self.bottom()
    }

    /// The two rectangles have a point in common, edges and corners included.
    pub open spec fn touches(self, other: Rect) -> bool {
        &&& max(self.left(), other.left()) <= min(self.right(), other.right())
        &&& max(self.top(), other.top()) <= min(self.bottom(), other.bottom())
    }

    /// The rectangle common to both, which has a zero extent where they only
    /// share an edge; `None` where they have no point in common.
    pub open spec fn intersect(self, other: Rect) -> Option<Rect> {
        if self.touches(other) {
            let left = max(self.left(), other.left());
            let top = max(self.top(), other.top());
            Some(
                Rect {
                    x: left,
                    y: top,
                    w: min(self.right(), other.right()) - left,
                    h: min(self.bottom(), other.bottom()) - top,
                },
            )
        } else {
            None
        }
    }

    /// The rectangle lies strictly inside the playfield.
    pub open spec fn fully_onscreen(self, view: Viewport) -> bool {
        &&& self.left() > 0
        &&& self.right() < view.width
        &&& self.top() > 0
        &&& self.bottom() < view.height
    }

    /// The rectangle lies strictly beyond one side of the playfield.
    pub open spec fn fully_offscreen(self, view: Viewport) -> bool {
        ||| self.left() > view.width
        ||| self.right() < 0
        ||| self.top() > view.height
        ||| self.bottom() < 0
    }

    /// No side of the rectangle lies beyond the playfield.
    pub open spec fn within(self, view: Viewport) -> bool {
        &&& self.left() >= 0
        &&& self.right() <= view.width
        &&& self.top() >= 0
        &&& self.bottom() <= view.height
    }
}

pub open spec fn max(a: int, b: int) -> int {
    if a >= b {
        a
    } else {
        b
    }
}

pub open spec fn min(a: int, b: int) -> int {
    if a <= b {
        a
    } else {
        b
    }
}

/// An axis-aligned bounding box: top-left corner and extents, in units.
#[derive(Clone, Copy, Debug, PartialEq, Eq, Structural)]
pub struct BoundingBox {
    pub x: i64,
    pub y: i64,
    pub w: i64,
    pub h: i64,
}

impl View for BoundingBox {
    type V = Rect;

    open spec fn view(&self) -> Rect {
        Rect { x: self.x as int, y: self.y as int, w: self.w as int, h: self.h as int }
    }
}

fn max_i128(a: i128, b: i128) -> (r: i128)
    ensures
        r == max(a as int, b as int),
{
    if a >= b {
        a
    } else {
        b
    }
}

fn min_i128(a: i128, b: i128) -> (r: i128)
    ensures
        r == min(a as int, b as int),
{
    if a <= b {
        a
    } else {
        b
    }
}

impl BoundingBox {
    pub fn new(x: i64, y: i64, w: i64, h: i64) -> (bb: BoundingBox)
        ensures
            bb == (BoundingBox { x, y, w, h }),
    {
        BoundingBox { x, y, w, h }
    }

    pub fn left(&self) -> (r: i128)
        ensures
            r == self@.left(),
    {
        self.x as i128
    }

    pub fn top(&self) -> (r: i128)
        ensures
            r == self@.top(),
    {
        self.y as i128
    }

    pub fn right(&self) -> (r: i128)
        ensures
            r == self@.right(),
    {
        self.x as i128 + self.w as i128
    }

    pub fn bottom(&self) -> (r: i128)
        ensures
            r == self@.bottom(),
    {
        self.y as i128 + self.h as i128
    }

    /// Whether the interiors of the two boxes meet.
    pub fn overlaps(&self, other: &BoundingBox) -> (r: bool)
        ensures
            r == self@.overlaps(other@),
    {
        self.left() < other.right() && other.left() < self.right() && self.top() < other.bottom()
            && other.top() < self.bottom()
    }

    /// The box translated by `vector`.
    pub fn offset(&self, vector: Vec2) -> (bb: BoundingBox)
        requires
            i64::MIN <= self.x + vector.x <= i64::MAX,
            i64::MIN <= self.y + vector.y <= i64::MAX,
        ensures
            bb@ == self@.offset(vector.x as int, vector.y as int),
    {
        BoundingBox { x: self.x + vector.x as i64, y: self.y + vector.y as i64, w: self.w, h: self.h }
    }

    /// The box common to both, `None` where they have no point in common.
    pub fn intersect(&self, other: &BoundingBox) -> (r: Option<BoundingBox>)
        ensures
            match r {
                Some(bb) => self@.intersect(other@) == Some(bb@),
                None => self@.intersect(other@).is_none(),
            },
    {
        let left: i128 = max_i128(self.left(), other.left());
        let top: i128 = max_i128(self.top(), other.top());
        let right: i128 = min_i128(self.right(), other.right());
        let bottom: i128 = min_i128(self.bottom(), other.bottom());
        if right < left || bottom < top {
            None
        } else {
            Some(
                BoundingBox {
                    x: left as i64,
                    y: top as i64,
                    w: (right - left) as i64,
                    h: (bottom - top) as i64,
                },
            )
        }
    }

    /// Whether the box lies strictly inside the playfield.
    pub fn fully_onscreen(&self, view: &Viewport) -> (r: bool)
        ensures
            r == self@.fully_onscreen(*view),
    {
        self.left() > 0 && self.right() < view.width as i128 && self.top() > 0 && self.bottom()
            < view.height as i128
    }

    /// Whether the box lies strictly beyond one side of the playfield.
    pub fn fully_offscreen(&self, view: &Viewport) -> (r: bool)
        ensures
            r == self@.fully_offscreen(*view),
    {
        self.left() > view.width as i128 || self.right() < 0 || self.top() > view.height as i128
            || self.bottom() < 0
    }
}

} // verus!
