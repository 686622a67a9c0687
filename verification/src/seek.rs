//! Integer square roots and the limiting of a displacement to a length.

use vstd::prelude::*;
use crate::geometry::Vec2;
use crate::units::magnitude;

verus! {

/// `r` is the integer part of the square root of `n`.
pub open spec fn is_floor_sqrt(n: int, r: int) -> bool {
    0 <= r && r * r <= n < (r + 1) * (r + 1)
}

/// The integer part of the square root of `n`.
pub open spec fn floor_sqrt(n: nat) -> nat
    decreases n,
{
    if n == 0 {
        0
    } else {
        let r = floor_sqrt((n - 1) as nat);
        if (r + 1) * (r + 1) <= n {
            r + 1
        } else {
            r
        }
    }
}

/// [`floor_sqrt`] computes the integer part of the square root.
pub proof fn lemma_floor_sqrt(n: nat)
    ensures
        is_floor_sqrt(n as int, floor_sqrt(n) as int),
    decreases n,
{
    if n > 0 {
        lemma_floor_sqrt((n - 1) as nat);
        let r = floor_sqrt((n - 1) as nat) as int;
        assert((r + 2) * (r + 2) > (r + 1) * (r + 1) + 1) by (nonlinear_arith)
            requires
                r >= 0,
        ;
    }
}

/// Squaring is strictly monotonic over the naturals.
pub proof fn lemma_square_order(a: int, b: int)
    by (nonlinear_arith)
    requires
        0 <= a,
        0 <= b,
    ensures
        a <= b <==> a * a <= b * b,
        a < b <==> a * a < b * b,
{
}

/// The integer part of the square root is unique.
pub proof fn lemma_floor_sqrt_unique(n: int, a: int, b: int)
    requires
        is_floor_sqrt(n, a),
        is_floor_sqrt(n, b),
    ensures
        a == b,
{
    lemma_square_order(a, b + 1);
    lemma_square_order(b, a + 1);
}

/// The integer part of the square root of `n`.
pub fn isqrt(n: u64) -> (r: u32)
    ensures
        r == floor_sqrt(n as nat),
        is_floor_sqrt(n as int, r as int),
{
    let mut lo: u64 = 0;
    let mut hi: u64 = 0x1_0000_0000;
    while hi - lo > 1
        invariant
            lo < hi <= 0x1_0000_0000,
            lo * lo <= n,
            n < hi * hi,
        decreases hi - lo,
    {
        let mid: u64 = lo + (hi - lo) / 2;
        assert(mid * mid <= 0xFFFF_FFFF * 0xFFFF_FFFF) by (nonlinear_arith)
            requires
                0 <= mid <= 0xFFFF_FFFF,
        ;
        if mid * mid <= n {
            lo = mid;
        } else {
            hi = mid;
        }
    }
    proof {
        lemma_floor_sqrt(n as nat);
        lemma_floor_sqrt_unique(n as int, lo as int, floor_sqrt(n as nat) as int);
    }
    lo as u32
}

/// One component `c` of a displacement whose squared length is `norm2`,
/// after the displacement is shortened to the length `length`: scaled by
/// `length` over the displacement's length and rounded towards zero.
pub open spec fn shortened(c: int, norm2: int, length: int) -> int {
    let r = floor_sqrt(((c * c) * (length * length) / norm2) as nat) as int;
    if c < 0 {
        -r
    } else {
        r
    }
}

/// The displacement (`dx`, `dy`) limited to the length `length`: left as it
/// is where it is no longer than that, and otherwise shortened to `length`
/// along its own direction, each component rounded towards zero.
pub open spec fn clamped(dx: int, dy: int, length: int) -> (int, int) {
    let n2 = norm2(dx, dy);
    if n2 <= length * length {
        (dx, dy)
    } else {
        (shortened(dx, n2, length), shortened(dy, n2, length))
    }
}

/// The squared length of the displacement (`dx`, `dy`).
pub open spec fn norm2(dx: int, dy: int) -> int {
    dx * dx + dy * dy
}

proof fn lemma_component_bound(c: int, other: int, length: int)
    by (nonlinear_arith)
    requires
        0 <= length,
        c * c + other * other <= length * length,
    ensures
        -length <= c <= length,
{
}

/// Facts about one shortened component: the quotient under the root, the
/// root itself, and the bracket that pins it.
proof fn lemma_shortened(c: int, n2: int, s: int) -> (r: int)
    requires
        0 <= s,
        c * c <= n2,
        s * s < n2,
    ensures
        r == floor_sqrt(((c * c) * (s * s) / n2) as nat),
        (c * c) * (s * s) / n2 >= 0,
        (c * c) * (s * s) / n2 <= s * s,
        0 <= r <= s,
        r <= magnitude(c),
        (r * r) * n2 <= (c * c) * (s * s),
        ((r + 1) * (r + 1)) * n2 > (c * c) * (s * s),
        shortened(c, n2, s) == if c < 0 { -r } else { r },
{
    let c2 = c * c;
    let s2 = s * s;
    let p = c2 * s2;
    let q = p / n2;
    assert(c2 >= 0 && s2 >= 0 && p >= 0) by (nonlinear_arith)
        requires
            c2 == c * c,
            s2 == s * s,
            p == c2 * s2,
    ;
    assert(0 <= q && q * n2 <= p < (q + 1) * n2) by (nonlinear_arith)
        requires
            q == p / n2,
            n2 > 0,
            p >= 0,
    ;
    assert(p <= n2 * s2 && p <= c2 * n2) by (nonlinear_arith)
        requires
            p == c2 * s2,
            0 <= c2 <= n2,
            0 <= s2 < n2,
    ;
    assert(q <= s2 && q <= c2) by (nonlinear_arith)
        requires
            q * n2 <= p,
            p <= n2 * s2,
            p <= c2 * n2,
            n2 > 0,
    ;
    lemma_floor_sqrt(q as nat);
    let r = floor_sqrt(q as nat) as int;
    lemma_square_order(r, s);
    lemma_square_order(r, magnitude(c));
    assert(magnitude(c) * magnitude(c) == c2) by (nonlinear_arith)
        requires
            c2 == c * c,
    ;
    assert((r * r) * n2 <= p) by (nonlinear_arith)
        requires
            r * r <= q,
            q * n2 <= p,
            n2 > 0,
    ;
    assert(((r + 1) * (r + 1)) * n2 > p) by (nonlinear_arith)
        requires
            (r + 1) * (r + 1) >= q + 1,
            p < (q + 1) * n2,
            n2 > 0,
    ;
    r
}

/// Limits the displacement (`dx`, `dy`) to the length `length`.
pub fn clamp_length(dx: i64, dy: i64, length: i32) -> (v: Vec2)
    requires
        -0xFFFF_FFFF <= dx <= 0xFFFF_FFFF,
        -0xFFFF_FFFF <= dy <= 0xFFFF_FFFF,
        0 <= length,
    ensures
        (v.x as int, v.y as int) == clamped(dx as int, dy as int, length as int),
{
    let ax: u128 = if dx < 0 { (-dx) as u128 } else { dx as u128 };
    let ay: u128 = if dy < 0 { (-dy) as u128 } else { dy as u128 };
    let s: u128 = length as u128;
    assert(ax * ax <= 0xFFFF_FFFF * 0xFFFF_FFFF && ax * ax == dx * dx) by (nonlinear_arith)
        requires
            0 <= ax <= 0xFFFF_FFFF,
            ax == dx || ax == -dx,
    ;
    assert(ay * ay <= 0xFFFF_FFFF * 0xFFFF_FFFF && ay * ay == dy * dy) by (nonlinear_arith)
        requires
            0 <= ay <= 0xFFFF_FFFF,
            ay == dy || ay == -dy,
    ;
    assert(s * s <= 0x7FFF_FFFF * 0x7FFF_FFFF) by (nonlinear_arith)
        requires
            0 <= s <= 0x7FFF_FFFF,
    ;
    let x2: u128 = ax * ax;
    let y2: u128 = ay * ay;
    let n2: u128 = x2 + y2;
    let s2: u128 = s * s;
    if n2 <= s2 {
        proof {
            lemma_component_bound(dx as int, dy as int, length as int);
            lemma_component_bound(dy as int, dx as int, length as int);
        }
        Vec2 { x: dx as i32, y: dy as i32 }
    } else {
        proof {
            lemma_shortened(dx as int, n2 as int, length as int);
            lemma_shortened(dy as int, n2 as int, length as int);
        }
        assert(x2 * s2 <= (0xFFFF_FFFF * 0xFFFF_FFFF) * (0x7FFF_FFFF * 0x7FFF_FFFF)) by (nonlinear_arith)
            requires
                0 <= x2 <= 0xFFFF_FFFF * 0xFFFF_FFFF,
                0 <= s2 <= 0x7FFF_FFFF * 0x7FFF_FFFF,
        ;
        assert(y2 * s2 <= (0xFFFF_FFFF * 0xFFFF_FFFF) * (0x7FFF_FFFF * 0x7FFF_FFFF)) by (nonlinear_arith)
            requires
                0 <= y2 <= 0xFFFF_FFFF * 0xFFFF_FFFF,
                0 <= s2 <= 0x7FFF_FFFF * 0x7FFF_FFFF,
        ;
        let qx: u128 = (x2 * s2) / n2;
        let qy: u128 = (y2 * s2) / n2;
        let rx: u32 = isqrt(qx as u64);
        let ry: u32 = isqrt(qy as u64);
        Vec2 {
            x: if dx < 0 { -(rx as i32) } else { rx as i32 },
            y: if dy < 0 { -(ry as i32) } else { ry as i32 },
        }
    }
}

/// A limited displacement is never longer than the limit, and so neither
/// is either of its components.
pub proof fn lemma_clamped_within(dx: int, dy: int, length: int)
    requires
        0 <= length,
    ensures
        ({
            let (x, y) = clamped(dx, dy, length);
            &&& norm2(x, y) <= length * length
            &&& -length <= x <= length
            &&& -length <= y <= length
        }),
{
    let n2 = dx * dx + dy * dy;
    let s2 = length * length;
    if n2 <= s2 {
        lemma_component_bound(dx, dy, length);
        lemma_component_bound(dy, dx, length);
    } else {
        assert(dx * dx <= n2 && dy * dy <= n2) by (nonlinear_arith)
            requires
                n2 == dx * dx + dy * dy,
        ;
        let rx = lemma_shortened(dx, n2, length);
        let ry = lemma_shortened(dy, n2, length);
        let (x, y) = clamped(dx, dy, length);
        assert(x * x == rx * rx && y * y == ry * ry) by (nonlinear_arith)
            requires
                x == rx || x == -rx,
                y == ry || y == -ry,
        ;
        assert(rx * rx + ry * ry <= s2) by (nonlinear_arith)
            requires
                (rx * rx) * n2 <= (dx * dx) * s2,
                (ry * ry) * n2 <= (dy * dy) * s2,
                n2 == dx * dx + dy * dy,
                n2 > 0,
        ;
    }
}

/// A displacement longer than the limit is shortened to within one unit
/// per axis of the limit: the next grid vector outwards is longer than it.
pub proof fn lemma_clamped_tight(dx: int, dy: int, length: int)
    requires
        0 <= length,
        norm2(dx, dy) > length * length,
    ensures
        ({
            let (x, y) = clamped(dx, dy, length);
            norm2(magnitude(x) + 1, magnitude(y) + 1) > length * length
        }),
{
    let n2 = dx * dx + dy * dy;
    let s2 = length * length;
    assert(dx * dx <= n2 && dy * dy <= n2) by (nonlinear_arith)
        requires
            n2 == dx * dx + dy * dy,
    ;
    let rx = lemma_shortened(dx, n2, length);
    let ry = lemma_shortened(dy, n2, length);
    assert((rx + 1) * (rx + 1) + (ry + 1) * (ry + 1) > s2) by (nonlinear_arith)
        requires
            ((rx + 1) * (rx + 1)) * n2 > (dx * dx) * s2,
            ((ry + 1) * (ry + 1)) * n2 > (dy * dy) * s2,
            n2 == dx * dx + dy * dy,
            n2 > 0,
    ;
}

/// A limited displacement points the way of the displacement given on each
/// axis and is no longer than it there.
pub proof fn lemma_clamped_direction(dx: int, dy: int, length: int)
    requires
        0 <= length,
    ensures
        ({
            let (x, y) = clamped(dx, dy, length);
            &&& (dx >= 0 ==> 0 <= x <= dx)
            &&& (dx <= 0 ==> dx <= x <= 0)
            &&& (dy >= 0 ==> 0 <= y <= dy)
            &&& (dy <= 0 ==> dy <= y <= 0)
        }),
{
    let n2 = dx * dx + dy * dy;
    if n2 > length * length {
        assert(dx * dx <= n2 && dy * dy <= n2) by (nonlinear_arith)
            requires
                n2 == dx * dx + dy * dy,
        ;
        lemma_shortened(dx, n2, length);
        lemma_shortened(dy, n2, length);
    }
}

/// Along an axis the limit is met exactly: a displacement with one
/// component, longer than the limit, is shortened to the limit itself.
pub proof fn lemma_clamped_on_axis(d: int, length: int)
    requires
        0 <= length,
        magnitude(d) > length,
    ensures
        clamped(d, 0, length) == (if d < 0 { -length } else { length }, 0int),
        clamped(0, d, length) == (0int, if d < 0 { -length } else { length }),
{
    let n2 = d * d;
    let s2 = length * length;
    lemma_square_order(length, magnitude(d));
    assert(magnitude(d) * magnitude(d) == d * d) by (nonlinear_arith);
    assert(norm2(d, 0) == n2 && norm2(0, d) == n2);
    assert((d * d) * s2 / n2 == s2) by (nonlinear_arith)
        requires
            n2 == d * d,
            n2 > 0,
    ;
    assert((0int * 0int) * s2 / n2 == 0) by (nonlinear_arith)
        requires
            n2 > 0,
    ;
    assert(s2 >= 0) by (nonlinear_arith)
        requires
            s2 == length * length,
    ;
    lemma_floor_sqrt(s2 as nat);
    lemma_floor_sqrt(0);
    assert(is_floor_sqrt(s2, length)) by (nonlinear_arith)
        requires
            s2 == length * length,
            0 <= length,
    ;
    lemma_floor_sqrt_unique(s2, length, floor_sqrt(s2 as nat) as int);
}

} // verus!
