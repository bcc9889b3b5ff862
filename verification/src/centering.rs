//! The position at which a window sits in the middle of a monitor.

use crate::rectangle::Rectangle;
use vstd::prelude::*;

verus! {

/// How far behind the start of an extent `outer` long an extent `inner` long
/// begins when it sits in the middle: half the difference of the lengths,
/// rounded toward zero. Negative where `inner` is the longer one.
pub open spec fn centering_offset(outer: int, inner: int) -> int {
    if outer >= inner {
        (outer - inner) / 2
    } else {
        -((inner - outer) / 2)
    }
}

/// The top-left corner that puts a window of `size` (width, height) in the
/// middle of `monitor`.
pub open spec fn centered_position(monitor: Rectangle, size: (u32, u32)) -> (int, int) {
    (
        monitor.x + centering_offset(monitor.width as int, size.0 as int),
        monitor.y + centering_offset(monitor.height as int, size.1 as int),
    )
}

/// Whether both coordinates of `centered_position(monitor, size)` are screen
/// coordinates, which are 32-bit signed integers.
pub open spec fn centering_fits(monitor: Rectangle, size: (u32, u32)) -> bool {
    let (x, y) = centered_position(monitor, size);
    i32::MIN <= x <= i32::MAX && i32::MIN <= y <= i32::MAX
}

/// Computes one coordinate of the centered position: `start` is where the
/// monitor begins along the axis, `outer` its length and `inner` the
/// window's.
fn centered_coordinate(start: i32, outer: u32, inner: u32) -> (coordinate: i64)
    ensures
        coordinate == start + centering_offset(outer as int, inner as int),
{
    if outer >= inner {
        start as i64 + ((outer - inner) / 2) as i64
    } else {
        start as i64 - ((inner - outer) / 2) as i64
    }
}

/// Computes the top-left corner that puts a window of `window_size` (width,
/// height) in the middle of `monitor`. Where the window is the larger one,
/// the corner lies before the monitor's.
///
/// The coordinates are 64 bits wide: for a monitor far from the origin or a
/// window much larger than the monitor, the corner lies outside the 32-bit
/// range of screen coordinates.
pub fn compute_centered_position(monitor: &Rectangle, window_size: (u32, u32)) -> (position: (
    i64,
    i64,
))
    ensures
        (position.0 as int, position.1 as int) == centered_position(*monitor, window_size),
{
    (
        centered_coordinate(monitor.x, monitor.width, window_size.0),
        centered_coordinate(monitor.y, monitor.height, window_size.1),
    )
}

} // verus!
