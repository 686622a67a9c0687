//! The random source: the process-wide generator of `macroquad::rand`.
//!
//! Nothing here is proved. Each function states what holds of every value
//! that the generator may hand back, and the callers are verified for all
//! of them.

use vstd::prelude::*;
use macroquad::rand::ChooseRandom;

verus! {

/// `r` lies between the bounds `a` and `b`, whichever is the smaller.
pub open spec fn between(a: int, b: int, r: int) -> bool {
    (a <= b ==> a <= r <= b) && (b <= a ==> b <= r <= a)
}

/// A random integer between `low` and `high`, drawn with
/// `macroquad::rand::gen_range`.
///
/// That function scales a fraction in `[0, 1)` to the range in floating
/// point and truncates, so the result lies between the two bounds, whichever
/// is the smaller. That it stays below `high` is not claimed: the rounding
/// of the sum can reach `high` where the bounds are large.
#[verifier::external_body]
pub(crate) fn random_between(low: i32, high: i32) -> (r: i32)
    ensures
        between(low as int, high as int, r as int),
{
    macroquad::rand::gen_range(low, high)
}

/// One of `items`, drawn with `macroquad::rand::ChooseRandom::choose`.
///
/// That method draws an index and looks it up, so what it returns is an
/// element of the list, and nothing where the list is empty. That it
/// returns an element of every list that has one is not claimed.
#[verifier::external_body]
pub(crate) fn pick_one<T: Copy>(items: &Vec<T>) -> (r: Option<T>)
    ensures
        r matches Some(item) ==> items@.contains(item),
        items@.len() == 0 ==> r.is_none(),
{
    items.choose().copied()
}

} // verus!
