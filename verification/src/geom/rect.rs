use vstd::prelude::*;
use crate::scalar::Scalar;

verus! {

/// An axis-aligned rectangle stored as its four edge coordinates.
///
/// No ordering between opposite edges is required: an inverted rectangle is a
/// legal value.
#[derive(Copy, Clone, Debug, PartialEq, Eq, Structural)]
pub struct Rect {
    /// left
    pub l: Scalar,
    /// top
    pub t: Scalar,
    /// right
    pub r: Scalar,
    /// bottom
    pub b: Scalar,
}

impl Rect {
    #[inline]
    pub fn from_ltrb(l: Scalar, t: Scalar, r: Scalar, b: Scalar) -> (rect: Self)
        ensures
            rect == (Rect { l, t, r, b }),
    {
        Self { l, t, r, b }
    }
}

} // verus!
