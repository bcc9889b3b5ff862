//! Axis-aligned rectangles in virtual-screen coordinates.

use vstd::prelude::*;

verus! {

/// An axis-aligned rectangle in virtual-screen coordinates: the corner with
/// the smallest coordinates and the extent along each axis, in pixels.
#[derive(Clone, Copy, Debug, PartialEq, Eq, Structural)]
pub struct Rectangle {
    pub x: i32,
    pub y: i32,
    pub width: u32,
    pub height: u32,
}

/// Length of what the intervals `[a_min, a_max)` and `[b_min, b_max)` have in
/// common: from the larger of the two starts to the smaller of the two ends,
/// and zero where that end does not lie behind that start.
pub open spec fn shared_length(a_min: int, a_max: int, b_min: int, b_max: int) -> int {
    let start = if a_min >= b_min { a_min } else { b_min };
    let end = if a_max <= b_max { a_max } else { b_max };
    if end > start { end - start } else { 0 }
}

impl Rectangle {
    pub open spec fn min_x(self) -> int {
        self.x as int
    }

    pub open spec fn min_y(self) -> int {
        self.y as int
    }

    pub open spec fn max_x(self) -> int {
        self.x + self.width
    }

    pub open spec fn max_y(self) -> int {
        self.y + self.height
    }

    /// Number of pixels the rectangle covers.
    pub open spec fn area(self) -> int {
        self.width * self.height
    }

    /// Number of pixels that lie in both rectangles: what the two have in
    /// common along one axis, multiplied by what they have in common along
    /// the other.
    pub open spec fn overlap(self, other: Rectangle) -> int {
        shared_length(self.min_x(), self.max_x(), other.min_x(), other.max_x())
            * shared_length(self.min_y(), self.max_y(), other.min_y(), other.max_y())
    }

    /// Whether every pixel of the rectangle lies in `outer`.
    pub open spec fn within(self, outer: Rectangle) -> bool {
        &&& outer.min_x() <= self.min_x()
        &&& self.max_x() <= outer.max_x()
        &&& outer.min_y() <= self.min_y()
        &&& self.max_y() <= outer.max_y()
    }

    /// Whether the rectangles have no pixel in common.
    pub open spec fn disjoint(self, other: Rectangle) -> bool {
        self.overlap(other) == 0
    }

    /// Computes the number of pixels that lie in both rectangles.
    pub fn overlap_area(&self, other: &Rectangle) -> (area: u64)
        ensures
            area == self.overlap(*other),
    {
        let across = shared_extent(self.x, self.width, other.x, other.width);
        let down = shared_extent(self.y, self.height, other.y, other.height);
        assert(across * down <= 0xffff_ffff * 0xffff_ffff) by (nonlinear_arith)
            requires
                across <= 0xffff_ffff,
                down <= 0xffff_ffff,
        ;
        (across as u64) * (down as u64)
    }
}

/// Computes what two extents along one axis have in common, each given by
/// its start and its length.
fn shared_extent(a: i32, a_length: u32, b: i32, b_length: u32) -> (shared: u32)
    ensures
        shared == shared_length(a as int, a + a_length, b as int, b + b_length),
{
    let a_end: i64 = a as i64 + a_length as i64;
    let b_end: i64 = b as i64 + b_length as i64;
    let low: i64 = if a >= b { a as i64 } else { b as i64 };
    let high: i64 = if a_end <= b_end { a_end } else { b_end };
    if high > low {
        (high - low) as u32
    } else {
        0
    }
}

/// Two rectangles have in common what they have in common the other way
/// round.
pub proof fn lemma_overlap_is_symmetric(a: Rectangle, b: Rectangle)
    ensures
        a.overlap(b) == b.overlap(a),
{
}

/// The overlap of two rectangles is never negative and never more than
/// either of them covers.
pub proof fn lemma_overlap_bounds(a: Rectangle, b: Rectangle)
    ensures
        0 <= a.overlap(b) <= a.area(),
        a.overlap(b) <= b.area(),
{
    let across = shared_length(a.min_x(), a.max_x(), b.min_x(), b.max_x());
    let down = shared_length(a.min_y(), a.max_y(), b.min_y(), b.max_y());
    assert(0 <= across * down <= a.width * a.height) by (nonlinear_arith)
        requires
            0 <= across <= a.width,
            0 <= down <= a.height,
    ;
    assert(across * down <= b.width * b.height) by (nonlinear_arith)
        requires
            0 <= across <= b.width,
            0 <= down <= b.height,
    ;
}

/// A rectangle that lies within another has all its pixels in common with
/// it.
pub proof fn lemma_overlap_of_inner(inner: Rectangle, outer: Rectangle)
    requires
        inner.within(outer),
    ensures
        inner.overlap(outer) == inner.area(),
{
}

/// A rectangle that lies within another has no more in common with a third
/// than the other has.
pub proof fn lemma_overlap_grows_with_rectangle(
    inner: Rectangle,
    outer: Rectangle,
    other: Rectangle,
)
    requires
        inner.within(outer),
    ensures
        inner.overlap(other) <= outer.overlap(other),
{
    let inner_across = shared_length(inner.min_x(), inner.max_x(), other.min_x(), other.max_x());
    let inner_down = shared_length(inner.min_y(), inner.max_y(), other.min_y(), other.max_y());
    let outer_across = shared_length(outer.min_x(), outer.max_x(), other.min_x(), other.max_x());
    let outer_down = shared_length(outer.min_y(), outer.max_y(), other.min_y(), other.max_y());
    assert(inner_across * inner_down <= outer_across * outer_down) by (nonlinear_arith)
        requires
            0 <= inner_across <= outer_across,
            0 <= inner_down <= outer_down,
    ;
}

} // verus!
