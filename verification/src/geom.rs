//! Axis-aligned rectangles on an integer grid.
//!
//! Coordinates grow rightward in `x` and downward in `y`, as on a screen.
//! All values are in hundredths of an arena unit (centiunits), so positions
//! such as half a unit are exact integers.

use vstd::prelude::*;

verus! {

/// An axis-aligned rectangle: top-left corner `(x, y)`, width `w`, height `h`.
#[derive(Clone, Copy, PartialEq, Eq, Structural, Debug)]
pub struct Rect {
    pub x: i32,
    pub y: i32,
    pub w: i32,
    pub h: i32,
}

impl Rect {
    pub open spec fn left(self) -> int {
        self.x as int
    }

    pub open spec fn right(self) -> int {
        self.x + self.w
    }

    pub open spec fn top(self) -> int {
        self.y as int
    }

    pub open spec fn bottom(self) -> int {
        self.y + self.h
    }

    /// Twice the rectangle's vertical centre. Comparing doubled centres
    /// avoids a division while ordering centres exactly.
    pub open spec fn centre_y_doubled(self) -> int {
        self.top() + self.bottom()
    }
}

/// Two rectangles overlap when they share at least one point; rectangles
/// that merely touch along an edge count as overlapping.
pub open spec fn rects_overlap(a: Rect, b: Rect) -> bool {
    &&& a.left() <= b.right()
    &&& a.right() >= b.left()
    &&& a.top() <= b.bottom()
    &&& a.bottom() >= b.top()
}

/// Overlap test for arbitrary rectangles; the sums are taken in `i64` so no
/// bound on the fields is needed.
pub fn overlaps(a: &Rect, b: &Rect) -> (r: bool)
    ensures
        r == rects_overlap(*a, *b),
{
    (a.x as i64) <= (b.x as i64) + (b.w as i64) && (a.x as i64) + (a.w as i64) >= (b.x as i64)
        && (a.y as i64) <= (b.y as i64) + (b.h as i64)
        && (a.y as i64) + (a.h as i64) >= (b.y as i64)
}

/// Whether `a`'s vertical centre lies strictly above `b`'s; smaller `y`
/// means higher on the screen.
pub open spec fn is_above_centre(a: Rect, b: Rect) -> bool {
    a.centre_y_doubled() < b.centre_y_doubled()
}

pub fn above_centre(a: &Rect, b: &Rect) -> (r: bool)
    ensures
        r == is_above_centre(*a, *b),
{
    (a.y as i64) + (a.y as i64) + (a.h as i64) < (b.y as i64) + (b.y as i64) + (b.h as i64)
}

} // verus!
