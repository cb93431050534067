use vstd::prelude::*;
use vstd::std_specs::convert::FromSpecImpl;
use crate::geom::vector::Vector;
use crate::scalar::{Scalar, ZERO_BITS};

verus! {

/// An absolute position in the plane.
#[derive(Copy, Clone, Debug, PartialEq, Eq, Structural)]
pub struct Point {
    pub x: Scalar,
    pub y: Scalar,
}

impl Point {
    /// The origin `(0, 0)`, where every walk over a path starts.
    pub open spec fn origin() -> Point {
        Point { x: Scalar { bits: ZERO_BITS }, y: Scalar { bits: ZERO_BITS } }
    }

    #[inline]
    pub fn new(x: Scalar, y: Scalar) -> (p: Self)
        ensures
            p == (Point { x, y }),
    {
        Self { x, y }
    }

    /// Reads the displacement `v` from the origin as a position.
    #[inline]
    pub fn from_vector(v: Vector<Scalar>) -> (p: Self)
        ensures
            p == (Point { x: v.x, y: v.y }),
    {
        Self { x: v.x, y: v.y }
    }

    /// Reads this position as a displacement from the origin.
    #[inline]
    pub fn to_vector(self) -> (v: Vector<Scalar>)
        ensures
            v.x == self.x,
            v.y == self.y,
    {
        Vector::new(self.x, self.y)
    }
}

impl From<(Scalar, Scalar)> for Point {
    #[inline]
    fn from(pair: (Scalar, Scalar)) -> (p: Self) {
        Self::new(pair.0, pair.1)
    }
}

impl FromSpecImpl<(Scalar, Scalar)> for Point {
    open spec fn obeys_from_spec() -> bool {
        true
    }

    open spec fn from_spec(pair: (Scalar, Scalar)) -> Self {
        Point { x: pair.0, y: pair.1 }
    }
}

impl From<[Scalar; 2]> for Point {
    #[inline]
    fn from(pair: [Scalar; 2]) -> (p: Self) {
        Self::new(pair[0], pair[1])
    }
}

impl FromSpecImpl<[Scalar; 2]> for Point {
    open spec fn obeys_from_spec() -> bool {
        true
    }

    open spec fn from_spec(pair: [Scalar; 2]) -> Self {
        Point { x: pair[0], y: pair[1] }
    }
}

impl From<Vector<Scalar>> for Point {
    #[inline]
    fn from(v: Vector<Scalar>) -> (p: Self) {
        Self::from_vector(v)
    }
}

impl FromSpecImpl<Vector<Scalar>> for Point {
    open spec fn obeys_from_spec() -> bool {
        true
    }

    open spec fn from_spec(v: Vector<Scalar>) -> Self {
        Point { x: v.x, y: v.y }
    }
}

} // verus!
