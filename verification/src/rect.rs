//! Axis-aligned rectangles built from two vectors.
//!
//! A rectangle is a position (its minimum corner, for normal rectangles)
//! and a size. The region operations are specified exactly over the raw
//! bits of the four scalars: containment uses half-open intervals on both
//! axes, the overlap test counts touching edges as overlapping, and the
//! intersection demands a region of positive width and height, so two
//! rectangles that merely touch have no intersection.

use crate::fp::{div_bits, mul_bits, Fp, FP_SCALE};
use crate::vector::Vector;
use vstd::math::max;
use vstd::math::min;
use vstd::prelude::*;

verus! {

/// An axis-aligned rectangle: a corner position and a size, both vectors.
#[derive(Clone, Copy, Debug, PartialEq, Eq, Structural)]
pub struct Rect {
    pub pos: Vector,
    pub size: Vector,
}

impl Rect {
    /// Raw bits of the right edge, `pos.x + size.x`.
    pub open spec fn right_bits(self) -> int {
        self.pos.x.bits + self.size.x.bits
    }

    /// Raw bits of the top edge, `pos.y + size.y`.
    pub open spec fn top_bits(self) -> int {
        self.pos.y.bits + self.size.y.bits
    }

    /// Both far edges can be computed without leaving 32 bits.
    pub open spec fn edges_in_range(self) -> bool {
        i32::MIN <= self.right_bits() <= i32::MAX && i32::MIN <= self.top_bits() <= i32::MAX
    }

    /// Half-open containment: the lower bounds are inclusive and the upper
    /// bounds exclusive on both axes.
    pub open spec fn spec_contains_point(self, p: Vector) -> bool {
        &&& self.pos.x.bits <= p.x.bits < self.right_bits()
        &&& self.pos.y.bits <= p.y.bits < self.top_bits()
    }

    /// Overlap with touching edges included: the rectangles are separated
    /// only when one lies strictly beyond an edge of the other.
    pub open spec fn spec_overlaps(self, other: Rect) -> bool {
        !(self.right_bits() < other.pos.x.bits || self.pos.x.bits > other.right_bits()
            || self.pos.y.bits > other.top_bits() || self.top_bits() < other.pos.y.bits)
    }

    /// The smallest rectangle containing both rectangles.
    pub open spec fn spec_union(self, other: Rect) -> Rect {
        let lo_x = min(self.pos.x.bits as int, other.pos.x.bits as int);
        let lo_y = min(self.pos.y.bits as int, other.pos.y.bits as int);
        let hi_x = max(self.right_bits(), other.right_bits());
        let hi_y = max(self.top_bits(), other.top_bits());
        Rect {
            pos: Vector { x: Fp { bits: lo_x as i32 }, y: Fp { bits: lo_y as i32 } },
            size: Vector { x: Fp { bits: (hi_x - lo_x) as i32 }, y: Fp { bits: (hi_y - lo_y) as i32 } },
        }
    }

    /// The union's size stays within 32 bits on both axes.
    pub open spec fn union_fits(self, other: Rect) -> bool {
        &&& max(self.right_bits(), other.right_bits()) - min(
            self.pos.x.bits as int,
            other.pos.x.bits as int,
        ) <= i32::MAX
        &&& max(self.top_bits(), other.top_bits()) - min(
            self.pos.y.bits as int,
            other.pos.y.bits as int,
        ) <= i32::MAX
    }

    /// The overlap region, when it has positive width and height.
    pub open spec fn spec_intersection(self, other: Rect) -> Option<Rect> {
        let lo_x = max(self.pos.x.bits as int, other.pos.x.bits as int);
        let lo_y = max(self.pos.y.bits as int, other.pos.y.bits as int);
        let hi_x = min(self.right_bits(), other.right_bits());
        let hi_y = min(self.top_bits(), other.top_bits());
        if lo_x < hi_x && lo_y < hi_y {
            Some(
                Rect {
                    pos: Vector { x: Fp { bits: lo_x as i32 }, y: Fp { bits: lo_y as i32 } },
                    size: Vector {
                        x: Fp { bits: (hi_x - lo_x) as i32 },
                        y: Fp { bits: (hi_y - lo_y) as i32 },
                    },
                },
            )
        } else {
            None
        }
    }

    /// Creates the rectangle with the given corner position and size.
    #[inline]
    pub fn new(pos: Vector, size: Vector) -> (r: Rect)
        ensures
            r.pos == pos,
            r.size == size,
    {
        Rect { pos, size }
    }

    /// The top edge, `pos.y + size.y`.
    #[inline]
    pub fn top(self) -> (r: Fp)
        requires
            i32::MIN <= self.top_bits() <= i32::MAX,
        ensures
            r.bits == self.top_bits(),
    {
        self.pos.y.add(self.size.y)
    }

    /// The bottom edge: the stored corner's y coordinate.
    #[inline]
    pub fn bottom(self) -> (r: Fp)
        ensures
            r.bits == self.pos.y.bits,
    {
        self.pos.y
    }

    /// The left edge: the stored corner's x coordinate.
    #[inline]
    pub fn left(self) -> (r: Fp)
        ensures
            r.bits == self.pos.x.bits,
    {
        self.pos.x
    }

    /// The right edge, `pos.x + size.x`.
    #[inline]
    pub fn right(self) -> (r: Fp)
        requires
            i32::MIN <= self.right_bits() <= i32::MAX,
        ensures
            r.bits == self.right_bits(),
    {
        self.pos.x.add(self.size.x)
    }

    /// The rectangle translated by an offset; the size is unchanged.
    pub fn move_by(self, offset: Vector) -> (r: Rect)
        requires
            i32::MIN <= self.pos.x.bits + offset.x.bits <= i32::MAX,
            i32::MIN <= self.pos.y.bits + offset.y.bits <= i32::MAX,
        ensures
            r.pos.x.bits == self.pos.x.bits + offset.x.bits,
            r.pos.y.bits == self.pos.y.bits + offset.y.bits,
            r.size == self.size,
    {
        Rect { pos: self.pos.add(offset), size: self.size }
    }

    /// The area: the fixed-point product of width and height.
    pub fn area(&self) -> (r: Fp)
        ensures
            r.bits == mul_bits(self.size.x.bits as int, self.size.y.bits as int),
    {
        self.size.x.mul(self.size.y)
    }

    /// The perimeter: twice the sum of width and height, the doubling
    /// applied to the raw bits.
    pub fn perimeter(&self) -> (r: Fp)
        requires
            i32::MIN <= self.size.x.bits + self.size.y.bits <= i32::MAX,
            i32::MIN <= 2 * (self.size.x.bits + self.size.y.bits) <= i32::MAX,
        ensures
            r.bits == 2 * (self.size.x.bits + self.size.y.bits),
    {
        let s = self.size.x.add(self.size.y);
        Fp { bits: 2 * s.bits }
    }

    /// The overlap of two rectangles, or nothing when the overlap is empty
    /// on either axis. A zero-width overlap counts as empty: rectangles
    /// that only touch yield no intersection.
    pub fn intersection(&self, other: &Rect) -> (r: Option<Rect>)
        requires
            self.edges_in_range(),
            other.edges_in_range(),
            self.spec_intersection(*other) is Some ==> min(self.right_bits(), other.right_bits())
                - max(self.pos.x.bits as int, other.pos.x.bits as int) <= i32::MAX,
            self.spec_intersection(*other) is Some ==> min(self.top_bits(), other.top_bits())
                - max(self.pos.y.bits as int, other.pos.y.bits as int) <= i32::MAX,
        ensures
            r == self.spec_intersection(*other),
    {
        let lo_x = self.pos.x.max(other.pos.x);
        let lo_y = self.pos.y.max(other.pos.y);
        let hi_x = self.pos.x.add(self.size.x).min(other.pos.x.add(other.size.x));
        let hi_y = self.pos.y.add(self.size.y).min(other.pos.y.add(other.size.y));
        if lo_x.bits < hi_x.bits && lo_y.bits < hi_y.bits {
            Some(
                Rect {
                    pos: Vector { x: lo_x, y: lo_y },
                    size: Vector { x: hi_x.sub(lo_x), y: hi_y.sub(lo_y) },
                },
            )
        } else {
            None
        }
    }

    /// The smallest rectangle containing both rectangles. Never fails, even
    /// for rectangles that do not overlap.
    pub fn union(&self, other: &Rect) -> (r: Rect)
        requires
            self.edges_in_range(),
            other.edges_in_range(),
            self.union_fits(*other),
        ensures
            r == self.spec_union(*other),
    {
        let x_min = self.pos.x.min(other.pos.x);
        let y_min = self.pos.y.min(other.pos.y);
        let x_max = self.pos.x.add(self.size.x).max(other.pos.x.add(other.size.x));
        let y_max = self.pos.y.add(self.size.y).max(other.pos.y.add(other.size.y));
        Rect {
            pos: Vector { x: x_min, y: y_min },
            size: Vector { x: x_max.sub(x_min), y: y_max.sub(y_min) },
        }
    }

    /// Whether the point lies inside the rectangle, with inclusive lower
    /// and exclusive upper bounds on both axes.
    pub fn contains_point(&self, point: &Vector) -> (r: bool)
        requires
            self.edges_in_range(),
        ensures
            r <==> self.spec_contains_point(*point),
    {
        point.x.bits >= self.pos.x.bits && point.x.bits < self.pos.x.add(self.size.x).bits
            && point.y.bits >= self.pos.y.bits && point.y.bits < self.pos.y.add(self.size.y).bits
    }

    /// Whether the other rectangle lies completely inside this one: its
    /// corner and its far corner must both pass the half-open containment
    /// test, so a rectangle reaching exactly to the far boundary is not
    /// contained.
    pub fn contains_rect(&self, other: &Rect) -> (r: bool)
        requires
            self.edges_in_range(),
            other.edges_in_range(),
        ensures
            r <==> self.spec_contains_point(other.pos) && self.spec_contains_point(
                Vector {
                    x: Fp { bits: other.right_bits() as i32 },
                    y: Fp { bits: other.top_bits() as i32 },
                },
            ),
    {
        self.contains_point(&other.pos) && self.contains_point(&other.pos.add(other.size))
    }

    /// Whether the rectangles overlap, counting touching edges as
    /// overlapping.
    pub fn is_overlapping(self, other: Rect) -> (r: bool)
        requires
            self.edges_in_range(),
            other.edges_in_range(),
        ensures
            r <==> self.spec_overlaps(other),
    {
        let self_right = self.pos.x.add(self.size.x);
        let self_top = self.pos.y.add(self.size.y);
        let other_right = other.pos.x.add(other.size.x);
        let other_top = other.pos.y.add(other.size.y);
        !(self_right.bits < other.pos.x.bits || self.pos.x.bits > other_right.bits
            || self.pos.y.bits > other_top.bits || self_top.bits < other.pos.y.bits)
    }

    /// The rectangle grown symmetrically: the corner moves back by the
    /// offset and the size grows by twice the offset. A negative offset
    /// shrinks the rectangle instead.
    pub fn expanded(&self, offset: Vector) -> (r: Rect)
        requires
            i32::MIN <= self.pos.x.bits - offset.x.bits <= i32::MAX,
            i32::MIN <= self.pos.y.bits - offset.y.bits <= i32::MAX,
            i32::MIN <= self.size.x.bits + mul_bits(offset.x.bits as int, 2 * FP_SCALE)
                <= i32::MAX,
            i32::MIN <= self.size.y.bits + mul_bits(offset.y.bits as int, 2 * FP_SCALE)
                <= i32::MAX,
        ensures
            r.pos.x.bits == self.pos.x.bits - offset.x.bits,
            r.pos.y.bits == self.pos.y.bits - offset.y.bits,
            r.size.x.bits == self.size.x.bits + mul_bits(offset.x.bits as int, 2 * FP_SCALE),
            r.size.y.bits == self.size.y.bits + mul_bits(offset.y.bits as int, 2 * FP_SCALE),
    {
        let two = Fp { bits: 2 * FP_SCALE };
        Rect { pos: self.pos.sub(offset), size: self.size.add(offset.mul_fp(two)) }
    }

    /// The rectangle shrunk symmetrically: the inverse of `expanded`. An
    /// offset larger than half the size produces a negative size; nothing
    /// guards against that.
    pub fn contracted(&self, offset: Vector) -> (r: Rect)
        requires
            i32::MIN <= self.pos.x.bits + offset.x.bits <= i32::MAX,
            i32::MIN <= self.pos.y.bits + offset.y.bits <= i32::MAX,
            i32::MIN <= self.size.x.bits - mul_bits(offset.x.bits as int, 2 * FP_SCALE)
                <= i32::MAX,
            i32::MIN <= self.size.y.bits - mul_bits(offset.y.bits as int, 2 * FP_SCALE)
                <= i32::MAX,
        ensures
            r.pos.x.bits == self.pos.x.bits + offset.x.bits,
            r.pos.y.bits == self.pos.y.bits + offset.y.bits,
            r.size.x.bits == self.size.x.bits - mul_bits(offset.x.bits as int, 2 * FP_SCALE),
            r.size.y.bits == self.size.y.bits - mul_bits(offset.y.bits as int, 2 * FP_SCALE),
    {
        let two = Fp { bits: 2 * FP_SCALE };
        Rect { pos: self.pos.add(offset), size: self.size.sub(offset.mul_fp(two)) }
    }

    /// The aspect ratio: width divided by height in fixed point.
    pub fn aspect_ratio(&self) -> (r: Fp)
        requires
            self.size.y.bits != 0,
            i32::MIN <= div_bits(self.size.x.bits as int, self.size.y.bits as int) <= i32::MAX,
        ensures
            r.bits == div_bits(self.size.x.bits as int, self.size.y.bits as int),
    {
        self.size.x.div(self.size.y)
    }
}

impl From<(i16, i16, i16, i16)> for Rect {
    /// Converts four small integers to the rectangle with that corner and
    /// size.
    fn from(values: (i16, i16, i16, i16)) -> Rect {
        Rect {
            pos: Vector::from((values.0, values.1)),
            size: Vector::from((values.2, values.3)),
        }
    }
}

impl vstd::std_specs::convert::FromSpecImpl<(i16, i16, i16, i16)> for Rect {
    open spec fn obeys_from_spec() -> bool {
        true
    }

    open spec fn from_spec(values: (i16, i16, i16, i16)) -> Rect {
        Rect {
            pos: Vector {
                x: Fp { bits: (values.0 * FP_SCALE) as i32 },
                y: Fp { bits: (values.1 * FP_SCALE) as i32 },
            },
            size: Vector {
                x: Fp { bits: (values.2 * FP_SCALE) as i32 },
                y: Fp { bits: (values.3 * FP_SCALE) as i32 },
            },
        }
    }
}

impl Default for Rect {
    /// The default rectangle has zero position and zero size.
    fn default() -> (r: Rect)
        ensures
            r.pos == Vector::spec_zero(),
            r.size == Vector::spec_zero(),
    {
        Rect { pos: Vector { x: Fp { bits: 0 }, y: Fp { bits: 0 } }, size: Vector { x: Fp { bits: 0 }, y: Fp { bits: 0 } } }
    }
}

/// The union of a rectangle with itself is that rectangle.
pub proof fn lemma_union_idempotent(r: Rect)
    ensures
        r.spec_union(r) == r,
{
}

/// The union does not depend on the order of its arguments.
pub proof fn lemma_union_commutative(a: Rect, b: Rect)
    ensures
        a.spec_union(b) == b.spec_union(a),
{
}

/// Grouping does not change the union of three rectangles, as long as each
/// union taken along the way fits in 32 bits.
pub proof fn lemma_union_associative(a: Rect, b: Rect, c: Rect)
    requires
        a.union_fits(b),
        b.union_fits(c),
        a.spec_union(b).union_fits(c),
    ensures
        a.spec_union(b).spec_union(c) == a.spec_union(b.spec_union(c)),
{
}

} // verus!
