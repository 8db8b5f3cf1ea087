use vstd::prelude::*;

verus! {

/// A 2D vector with integer components, used for positions, velocities and
/// half-extents alike.
#[derive(Clone, Copy, Debug, PartialEq, Eq, Structural)]
pub struct Vec2 {
    pub x: i64,
    pub y: i64,
}

/// An axis-aligned bounding box given by its center and its half-extent
/// (half the size on each axis).
#[derive(Clone, Copy, Debug, PartialEq, Eq, Structural)]
pub struct Aabb {
    pub center: Vec2,
    pub half: Vec2,
}

impl Aabb {
    /// A box is well formed when both half-extents are strictly positive.
    pub open spec fn wf(self) -> bool {
        self.half.x > 0 && self.half.y > 0
    }

    pub open spec fn left(self) -> int {
        self.center.x - self.half.x
    }

    pub open spec fn right(self) -> int {
        self.center.x + self.half.x
    }

    pub open spec fn bottom(self) -> int {
        self.center.y - self.half.y
    }

    pub open spec fn top(self) -> int {
        self.center.y + self.half.y
    }
}

/// Two boxes overlap when, on both axes, the distance between their centers
/// is strictly less than the sum of their half-extents.
pub open spec fn overlaps_spec(a: Aabb, b: Aabb) -> bool {
    &&& -(a.half.x + b.half.x) < a.center.x - b.center.x < a.half.x + b.half.x
    &&& -(a.half.y + b.half.y) < a.center.y - b.center.y < a.half.y + b.half.y
}

/// Broad-phase AABB overlap test. Widening to `i128` keeps the differences
/// and sums exact for any `i64` inputs.
pub fn overlaps(a: &Aabb, b: &Aabb) -> (r: bool)
    ensures
        r == overlaps_spec(*a, *b),
{
    let dx: i128 = (a.center.x as i128) - (b.center.x as i128);
    let sx: i128 = (a.half.x as i128) + (b.half.x as i128);
    let dy: i128 = (a.center.y as i128) - (b.center.y as i128);
    let sy: i128 = (a.half.y as i128) + (b.half.y as i128);
    -sx < dx && dx < sx && -sy < dy && dy < sy
}

/// The overlap test is symmetric in its two boxes.
pub proof fn lemma_overlaps_symmetric(a: Aabb, b: Aabb)
    ensures
        overlaps_spec(a, b) == overlaps_spec(b, a),
{
}

} // verus!
