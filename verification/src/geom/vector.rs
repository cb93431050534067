use vstd::prelude::*;

verus! {

/// A displacement with components of type `T`.
#[derive(Copy, Clone, Debug, Default)]
pub struct Vector<T> {
    pub x: T,
    pub y: T,
}

impl<T> Vector<T> {
    #[inline]
    pub fn new(x: T, y: T) -> (v: Self)
        ensures
            v.x == x,
            v.y == y,
    {
        Self { x, y }
    }
}

} // verus!
