//! Axis-aligned bounding boxes that only ever grow.

use vstd::prelude::*;
use crate::scalar::{Scalar, INFINITY_BITS, NEG_INFINITY_BITS};
use crate::vector::Vector3;

verus! {

/// Bit pattern of 2.0, the length that a model's bounding diagonal is scaled
/// to, so that the model fits the cube from -1 to 1.
pub const TARGET_DIAGONAL_BITS: u32 = 0x4000_0000;

/// The smallest and the largest coordinate seen so far, on each axis.
///
/// A box that has seen no point has `+infinity` as its every minimum and
/// `-infinity` as its every maximum.
#[derive(Clone, Copy, Debug, PartialEq, Eq, Structural)]
pub struct BoundingBox {
    pub min: Vector3,
    pub max: Vector3,
}

impl BoundingBox {
    /// The box that has seen no point.
    pub open spec fn vacant() -> BoundingBox {
        BoundingBox {
            min: Vector3::splat(Scalar { bits: INFINITY_BITS }),
            max: Vector3::splat(Scalar { bits: NEG_INFINITY_BITS }),
        }
    }

    /// No corner coordinate is a NaN.
    pub open spec fn numeric(self) -> bool {
        self.min.numeric() && self.max.numeric()
    }

    /// The box after it has seen one more point.
    pub open spec fn widened(self, p: Vector3) -> BoundingBox {
        BoundingBox {
            min: Vector3 {
                x: self.min.x.lesser(p.x),
                y: self.min.y.lesser(p.y),
                z: self.min.z.lesser(p.z),
            },
            max: Vector3 {
                x: self.max.x.greater(p.x),
                y: self.max.y.greater(p.y),
                z: self.max.z.greater(p.z),
            },
        }
    }

    /// The box that has seen the points of `points`, first to last.
    pub open spec fn of(points: Seq<Vector3>) -> BoundingBox
        decreases points.len(),
    {
        if points.len() == 0 {
            BoundingBox::vacant()
        } else {
            BoundingBox::of(points.drop_last()).widened(points.last())
        }
    }

    /// `self` reaches at least as far as `earlier` in every direction.
    pub open spec fn covers(self, earlier: BoundingBox) -> bool {
        &&& self.min.x.rank() <= earlier.min.x.rank()
        &&& self.min.y.rank() <= earlier.min.y.rank()
        &&& self.min.z.rank() <= earlier.min.z.rank()
        &&& self.max.x.rank() >= earlier.max.x.rank()
        &&& self.max.y.rank() >= earlier.max.y.rank()
        &&& self.max.z.rank() >= earlier.max.z.rank()
    }

    /// `s` lies between `lo` and `hi`, or is a NaN and so lies nowhere.
    pub open spec fn spans(lo: Scalar, hi: Scalar, s: Scalar) -> bool {
        s.nan() || lo.rank() <= s.rank() <= hi.rank()
    }

    /// Every coordinate of `p` that is a number lies within the box.
    pub open spec fn contains(self, p: Vector3) -> bool {
        &&& BoundingBox::spans(self.min.x, self.max.x, p.x)
        &&& BoundingBox::spans(self.min.y, self.max.y, p.y)
        &&& BoundingBox::spans(self.min.z, self.max.z, p.z)
    }

    /// The box that has seen no point.
    pub fn empty() -> (b: BoundingBox)
        ensures
            b == BoundingBox::vacant(),
            b.numeric(),
    {
        BoundingBox {
            min: Vector3::new(Scalar::infinity(), Scalar::infinity(), Scalar::infinity()),
            max: Vector3::new(
                Scalar::neg_infinity(),
                Scalar::neg_infinity(),
                Scalar::neg_infinity(),
            ),
        }
    }

    /// Takes one more point into the box, axis by axis.
    ///
    /// A coordinate that is a NaN leaves its axis as it was.
    pub fn enclose(&mut self, p: Vector3)
        ensures
            *final(self) == old(self).widened(p),
            old(self).numeric() ==> final(self).numeric() && final(self).covers(*old(self)),
    {
        self.min = Vector3::new(self.min.x.min(p.x), self.min.y.min(p.y), self.min.z.min(p.z));
        self.max = Vector3::new(self.max.x.max(p.x), self.max.y.max(p.y), self.max.z.max(p.z));
    }


    /// A box never shrinks: after one more point it reaches at least as far
    /// as before on every axis, and its corners are still numbers.
    pub proof fn law_widening_never_shrinks(self, p: Vector3)
        requires
            self.numeric(),
        ensures
            self.widened(p).numeric(),
            self.widened(p).covers(self),
    {
    }

    /// A point that was taken in lies within the box, on every axis on which
    /// its coordinate is a number.
    pub proof fn law_widened_contains(self, p: Vector3)
        requires
            self.numeric(),
        ensures
            self.widened(p).contains(p),
    {
    }

    /// The box of any sequence of points has numbers as corners.
    pub proof fn law_of_numeric(points: Seq<Vector3>)
        ensures
            BoundingBox::of(points).numeric(),
        decreases points.len(),
    {
        if points.len() > 0 {
            BoundingBox::law_of_numeric(points.drop_last());
        }
    }

    /// Taking in points one after the other, the box after `j` points reaches
    /// at least as far, on every axis, as the box after the first `i` of them.
    pub proof fn law_of_monotonic(points: Seq<Vector3>, i: int, j: int)
        requires
            0 <= i <= j <= points.len(),
        ensures
            BoundingBox::of(points.take(j)).covers(BoundingBox::of(points.take(i))),
        decreases j - i,
    {
        if i < j {
            BoundingBox::law_of_monotonic(points, i, j - 1);
            BoundingBox::law_of_numeric(points.take(j - 1));
            assert(points.take(j).drop_last() =~= points.take(j - 1));
        }
    }

    /// Every point of a sequence lies within the box of that sequence.
    pub proof fn law_of_contains(points: Seq<Vector3>, k: int)
        requires
            0 <= k < points.len(),
        ensures
            BoundingBox::of(points).contains(points[k]),
        decreases points.len(),
    {
        let rest = points.drop_last();
        BoundingBox::law_of_numeric(rest);
        if k < points.len() - 1 {
            BoundingBox::law_of_contains(rest, k);
        }
    }
}

} // verus!
