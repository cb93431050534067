use vstd::prelude::*;
use crate::scalar::Scalar;

pub mod point;
pub mod rect;
pub mod vector;

verus! {

/// Shorthand for [`point::Point::new`].
#[inline]
pub fn point(x: Scalar, y: Scalar) -> (p: point::Point)
    ensures
        p.x == x,
        p.y == y,
{
    point::Point::new(x, y)
}

/// Shorthand for [`vector::Vector::new`].
#[inline]
pub fn vector<T>(x: T, y: T) -> (v: vector::Vector<T>)
    ensures
        v.x == x,
        v.y == y,
{
    vector::Vector::new(x, y)
}

} // verus!
