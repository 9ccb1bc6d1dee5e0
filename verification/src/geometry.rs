//! Axis-aligned boxes and the overlap test that every collision goes through.

use vstd::prelude::*;

verus! {

/// Sub-pixel units per pixel. Coordinates, sizes and speeds are whole numbers
/// of these units.
pub const UNIT: i64 = 100;

/// Largest magnitude of a coordinate and largest side of a box.
pub const COORD_LIMIT: i64 = 1_000_000_000_000_000;

/// Largest side of a playfield, and the largest speed of anything on it.
/// It leaves enough room below [`COORD_LIMIT`] for an entity to overshoot the
/// playfield by a step before it is taken away.
pub const FIELD_LIMIT: i64 = 100_000_000_000_000;

/// A box given by its centre and its size.
#[derive(Clone, Copy, Debug, PartialEq, Eq)]
pub struct GameObject {
    pub x: i64,
    pub y: i64,
    pub width: i64,
    pub height: i64,
}

impl GameObject {
    /// A box has a positive extent on both axes and lies within the
    /// coordinate limits.
    pub open spec fn wf(&self) -> bool {
        &&& 0 < self.width <= COORD_LIMIT
        &&& 0 < self.height <= COORD_LIMIT
        &&& -COORD_LIMIT <= self.x <= COORD_LIMIT
        &&& -COORD_LIMIT <= self.y <= COORD_LIMIT
    }

    /// Twice the coordinate of the left edge. Edges sit half a side away from
    /// the centre, so doubled edges are whole numbers.
    pub open spec fn left2(&self) -> int {
        2 * self.x - self.width
    }

    /// Twice the coordinate of the right edge.
    pub open spec fn right2(&self) -> int {
        2 * self.x + self.width
    }

    /// Twice the coordinate of the top edge.
    pub open spec fn top2(&self) -> int {
        2 * self.y - self.height
    }

    /// Twice the coordinate of the bottom edge.
    pub open spec fn bottom2(&self) -> int {
        2 * self.y + self.height
    }

    /// Whether the closed box holds the point whose doubled coordinates are
    /// `(px2, py2)`.
    pub open spec fn covers(&self, px2: int, py2: int) -> bool {
        &&& self.left2() <= px2 <= self.right2()
        &&& self.top2() <= py2 <= self.bottom2()
    }

    /// The same box with its centre moved to height `y`.
    pub open spec fn at_y(self, y: int) -> GameObject {
        GameObject { x: self.x, y: y as i64, width: self.width, height: self.height }
    }

    /// The same box with its centre moved to abscissa `x`.
    pub open spec fn at_x(self, x: int) -> GameObject {
        GameObject { x: x as i64, y: self.y, width: self.width, height: self.height }
    }

    pub fn new(x: i64, y: i64, width: i64, height: i64) -> (obj: GameObject)
        requires
            0 < width <= COORD_LIMIT,
            0 < height <= COORD_LIMIT,
            -COORD_LIMIT <= x <= COORD_LIMIT,
            -COORD_LIMIT <= y <= COORD_LIMIT,
        ensures
            obj == (GameObject { x, y, width, height }),
            obj.wf(),
    {
        GameObject { x, y, width, height }
    }
}

/// Two boxes overlap when some point lies in both. The boxes are closed, so
/// boxes that only touch along an edge or at a corner overlap.
pub open spec fn overlaps(a: GameObject, b: GameObject) -> bool {
    exists|px2: int, py2: int| #[trigger] a.covers(px2, py2) && b.covers(px2, py2)
}

/// Whether a gap separates the two boxes along the horizontal axis.
pub open spec fn apart_x(a: GameObject, b: GameObject) -> bool {
    a.right2() < b.left2() || b.right2() < a.left2()
}

/// Whether a gap separates the two boxes along the vertical axis.
pub open spec fn apart_y(a: GameObject, b: GameObject) -> bool {
    a.bottom2() < b.top2() || b.bottom2() < a.top2()
}

/// Boxes overlap exactly when no gap separates them on either axis.
pub proof fn lemma_overlaps_iff_no_gap(a: GameObject, b: GameObject)
    requires
        a.wf(),
        b.wf(),
    ensures
        overlaps(a, b) <==> !apart_x(a, b) && !apart_y(a, b),
{
    if !apart_x(a, b) && !apart_y(a, b) {
        let px2 = if a.left2() >= b.left2() { a.left2() } else { b.left2() };
        let py2 = if a.top2() >= b.top2() { a.top2() } else { b.top2() };
        assert(a.covers(px2, py2) && b.covers(px2, py2));
    }
}

/// Overlap does not depend on the order of the two boxes.
pub proof fn lemma_overlaps_commutes(a: GameObject, b: GameObject)
    ensures
        overlaps(a, b) == overlaps(b, a),
{
    if overlaps(a, b) {
        let (px2, py2) = choose|px2: int, py2: int| #[trigger] a.covers(px2, py2) && b.covers(px2, py2);
        assert(b.covers(px2, py2) && a.covers(px2, py2));
    }
    if overlaps(b, a) {
        let (px2, py2) = choose|px2: int, py2: int| #[trigger] b.covers(px2, py2) && a.covers(px2, py2);
        assert(a.covers(px2, py2) && b.covers(px2, py2));
    }
}

/// Boxes with a gap between them on either axis do not overlap.
pub proof fn lemma_gap_excludes_overlap(a: GameObject, b: GameObject)
    requires
        apart_x(a, b) || apart_y(a, b),
    ensures
        !overlaps(a, b),
{
}

/// Tests two boxes for overlap.
pub fn collides(a: &GameObject, b: &GameObject) -> (hit: bool)
    requires
        a.wf(),
        b.wf(),
    ensures
        hit == overlaps(*a, *b),
        hit == overlaps(*b, *a),
{
    let a_left: i64 = 2 * a.x - a.width;
    let a_right: i64 = 2 * a.x + a.width;
    let a_top: i64 = 2 * a.y - a.height;
    let a_bottom: i64 = 2 * a.y + a.height;
    let b_left: i64 = 2 * b.x - b.width;
    let b_right: i64 = 2 * b.x + b.width;
    let b_top: i64 = 2 * b.y - b.height;
    let b_bottom: i64 = 2 * b.y + b.height;
    proof {
        lemma_overlaps_iff_no_gap(*a, *b);
        lemma_overlaps_commutes(*a, *b);
    }
    !(a_right < b_left || a_left > b_right || a_bottom < b_top || a_top > b_bottom)
}

} // verus!
