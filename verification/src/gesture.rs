//! The gesture classifier: a press records where and when the pointer went
//! down; the matching release either taps (the pointer did not move) or
//! swipes (it did), with coordinates translated into device space and the
//! swipe timed from press to release.

use vstd::prelude::*;
use crate::scale::{device_of_window, sat_u32, Scale};

verus! {

/// An open gesture: the window position and time at which the pointer
/// went down. Created on press, consumed on release.
#[derive(Clone, Copy, Debug, PartialEq, Eq, Structural)]
pub struct GestureStart {
    pub x: i64,
    pub y: i64,
    pub at_ms: u64,
}

/// One input command for the device, in device coordinates.
#[derive(Clone, Copy, Debug, PartialEq, Eq, Structural)]
pub enum DeviceCommand {
    /// A single tap.
    Tap { x: u32, y: u32 },
    /// A swipe from one point to another over a duration.
    Swipe { x0: u32, y0: u32, x1: u32, y1: u32, duration_ms: u32 },
    /// A key event by device key code.
    Key { code: usize },
}

/// Squared Euclidean distance between two window positions, the quantity the
/// tap threshold is compared against (no square root is ever needed).
pub open spec fn dist_sq(x0: int, y0: int, x1: int, y1: int) -> int {
    (x1 - x0) * (x1 - x0) + (y1 - y0) * (y1 - y0)
}

/// Milliseconds from `start` to `now`; a clock that did not advance
/// yields 0.
pub open spec fn elapsed_ms(start: int, now: int) -> int {
    if now >= start {
        now - start
    } else {
        0
    }
}

/// The device coordinate a window coordinate is sent as.
pub open spec fn dev(w: int, s: Scale) -> int {
    sat_u32(device_of_window(w, s.num as int, s.den as int))
}

/// What a release at window position `(rx, ry)` and time `now_ms` turns an
/// open gesture into: a tap at the release point when the squared distance
/// from the press point is below 1, otherwise a swipe from press point to
/// release point over the elapsed time (saturated into a `u32`).
pub open spec fn classify_spec(g: GestureStart, rx: int, ry: int, now_ms: int, s: Scale)
    -> DeviceCommand {
    if dist_sq(g.x as int, g.y as int, rx, ry) < 1 {
        DeviceCommand::Tap { x: dev(rx, s) as u32, y: dev(ry, s) as u32 }
    } else {
        DeviceCommand::Swipe {
            x0: dev(g.x as int, s) as u32,
            y0: dev(g.y as int, s) as u32,
            x1: dev(rx, s) as u32,
            y1: dev(ry, s) as u32,
            duration_ms: sat_u32(elapsed_ms(g.at_ms as int, now_ms)) as u32,
        }
    }
}

/// Classifies the release of an open gesture into the device command it
/// issues.
pub fn classify_release(g: &GestureStart, rx: i64, ry: i64, now_ms: u64, s: &Scale) -> (c:
    DeviceCommand)
    requires
        s.wf(),
    ensures
        c == classify_spec(*g, rx as int, ry as int, now_ms as int, *s),
{
    proof {
        // For whole window pixels, a squared distance below 1 means the
        // pointer did not move at all.
        assert(dist_sq(g.x as int, g.y as int, rx as int, ry as int) < 1 <==> (rx == g.x && ry
            == g.y)) by (nonlinear_arith);
    }
    if rx == g.x && ry == g.y {
        DeviceCommand::Tap { x: s.to_device(rx), y: s.to_device(ry) }
    } else {
        let e: u64 = if now_ms >= g.at_ms {
            now_ms - g.at_ms
        } else {
            0
        };
        let duration: u32 = if e > u32::MAX as u64 {
            u32::MAX
        } else {
            e as u32
        };
        DeviceCommand::Swipe {
            x0: s.to_device(g.x),
            y0: s.to_device(g.y),
            x1: s.to_device(rx),
            y1: s.to_device(ry),
            duration_ms: duration,
        }
    }
}

} // verus!
