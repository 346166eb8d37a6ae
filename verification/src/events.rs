//! The events that an editor consumes, as plain values.

use crate::geometry::{within, within_radius, Point};
use vstd::prelude::*;

verus! {

/// A pointer button.
#[derive(Clone, Copy, Debug, PartialEq, Eq, Structural)]
pub enum Button {
    Left,
    Right,
    Middle,
    Other,
}

/// A key, as far as the editor tells keys apart. `Enter` stands for both
/// the Return key and the keypad's Enter key.
#[derive(Clone, Copy, Debug, PartialEq, Eq, Structural)]
pub enum Key {
    Enter,
    Escape,
    Backspace,
    Delete,
    Other,
}

/// A press of the left button that a later press may turn into a
/// double-click.
#[derive(Clone, Copy, Debug, PartialEq, Eq, Structural)]
pub struct Click {
    /// When the button went down, in milliseconds of a monotonic clock.
    pub time_ms: u64,
    /// Where the button went down.
    pub at: Point,
}

/// The pointer position that an event reports.
pub open spec fn pointer_at(x: i32, y: i32) -> Point {
    Point { x: x as i64, y: y as i64 }
}

/// The time from `then` to `now`; none where the clock reads earlier than
/// before.
pub open spec fn elapsed(then: u64, now: u64) -> int {
    if now >= then {
        now - then
    } else {
        0
    }
}

/// A press at `at` at the time `now` completes a double-click that
/// `pending` began: it comes no later than `delay` after it and no farther
/// than `distance` from it.
pub open spec fn is_double_click(
    pending: Option<Click>,
    at: Point,
    now: u64,
    delay: u64,
    distance: u32,
) -> bool {
    match pending {
        Some(first) => elapsed(first.time_ms, now) <= delay && within(at, first.at, distance),
        None => false,
    }
}

/// Whether a press at `at` at the time `now` completes a double-click that
/// `pending` began.
pub fn completes_double_click(
    pending: Option<Click>,
    at: Point,
    now: u64,
    delay: u64,
    distance: u32,
) -> (r: bool)
    ensures
        r == is_double_click(pending, at, now, delay, distance),
{
    match pending {
        Some(first) => {
            let passed: u64 = if now >= first.time_ms {
                now - first.time_ms
            } else {
                0
            };
            passed <= delay && within_radius(at, first.at, distance)
        },
        None => false,
    }
}

} // verus!
