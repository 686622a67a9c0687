//! What the simulation is told at the start of each frame.

use vstd::prelude::*;
use crate::geometry::Viewport;
use crate::units::Millis;

verus! {

/// A snapshot of the controls, the clock and the playfield for one frame.
#[derive(Clone, Copy, Debug, PartialEq, Eq, Structural)]
pub struct Input {
    /// Movement keys, true while held.
    pub move_up: bool,
    pub move_down: bool,
    pub move_left: bool,
    pub move_right: bool,
    /// Fire keys, true in the frame in which the key went down.
    pub fire_up: bool,
    pub fire_down: bool,
    pub fire_left: bool,
    pub fire_right: bool,
    /// The confirm key, true in the frame in which it went down.
    pub confirm: bool,
    /// The time on a clock that never runs backwards.
    pub now: Millis,
    /// The playfield's current extent.
    pub view: Viewport,
}

impl Input {
    /// A frame in which no key is down.
    pub open spec fn idle_at(now: Millis, view: Viewport) -> Input {
        Input {
            move_up: false,
            move_down: false,
            move_left: false,
            move_right: false,
            fire_up: false,
            fire_down: false,
            fire_left: false,
            fire_right: false,
            confirm: false,
            now,
            view,
        }
    }

    pub fn idle(now: Millis, view: Viewport) -> (input: Input)
        ensures
            input == Input::idle_at(now, view),
    {
        Input {
            move_up: false,
            move_down: false,
            move_left: false,
            move_right: false,
            fire_up: false,
            fire_down: false,
            fire_left: false,
            fire_right: false,
            confirm: false,
            now,
            view,
        }
    }
}

} // verus!
