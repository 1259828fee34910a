use vstd::prelude::*;

use crate::Vector2;

verus! {

/// An axis-aligned bounding box, given by its lowest and highest corners.
#[derive(Clone, Copy, Debug, PartialEq, Eq)]
pub struct AABB {
    pub min: Vector2<i128>,
    pub max: Vector2<i128>,
}

impl AABB {
    /// The lowest corner lies below and left of the highest one on each axis.
    pub open spec fn wf(&self) -> bool {
        self.min.x <= self.max.x && self.min.y <= self.max.y
    }

    /// The two boxes share at least one point; touching edges count.
    pub open spec fn overlaps(&self, other: &AABB) -> bool {
        &&& self.min.x <= other.max.x
        &&& self.max.x >= other.min.x
        &&& self.min.y <= other.max.y
        &&& self.max.y >= other.min.y
    }

    /// The box reaches `half` from `center` in each direction on both axes.
    pub open spec fn is_around(&self, center: Vector2<i128>, half: int) -> bool {
        &&& self.min.x == center.x - half
        &&& self.min.y == center.y - half
        &&& self.max.x == center.x + half
        &&& self.max.y == center.y + half
    }

    pub fn new(min: Vector2<i128>, max: Vector2<i128>) -> (r: Self)
        requires
            min.x <= max.x,
            min.y <= max.y,
        ensures
            r.min == min,
            r.max == max,
            r.wf(),
    {
        Self { min, max }
    }

    /// The box of half-extent `half` around `center`.
    pub fn around(center: Vector2<i128>, half: i128) -> (r: Self)
        requires
            half >= 0,
            i128::MIN <= center.x - half,
            i128::MIN <= center.y - half,
            center.x + half <= i128::MAX,
            center.y + half <= i128::MAX,
        ensures
            r.is_around(center, half as int),
            r.wf(),
    {
        Self::new(
            Vector2::new(center.x - half, center.y - half),
            Vector2::new(center.x + half, center.y + half),
        )
    }

    /// Whether the two boxes overlap on both axes, touching edges included.
    pub fn intersect(&self, other: &AABB) -> (r: bool)
        ensures
            r == self.overlaps(other),
    {
        (self.min.x <= other.max.x && self.max.x >= other.min.x) && (self.min.y <= other.max.y
            && self.max.y >= other.min.y)
    }
}

/// Intersection does not depend on the order of the two boxes.
pub proof fn lemma_intersect_symmetric(a: AABB, b: AABB)
    ensures
        a.overlaps(&b) == b.overlaps(&a),
{
}

/// Two boxes where one ends exactly where the other begins, on one axis, and
/// whose ranges meet on the other axis, intersect.
pub proof fn lemma_touching_edges_intersect(a: AABB, b: AABB)
    requires
        a.wf(),
        b.wf(),
        (a.max.x == b.min.x && a.min.y <= b.max.y && b.min.y <= a.max.y) || (a.max.y == b.min.y
            && a.min.x <= b.max.x && b.min.x <= a.max.x),
    ensures
        a.overlaps(&b),
        b.overlaps(&a),
{
}

/// Two boxes with a gap between them on either axis do not intersect.
pub proof fn lemma_separated_boxes_disjoint(a: AABB, b: AABB)
    requires
        a.max.x < b.min.x || b.max.x < a.min.x || a.max.y < b.min.y || b.max.y < a.min.y,
    ensures
        !a.overlaps(&b),
        !b.overlaps(&a),
{
}

} // verus!
