//! Points in the plane, with coordinates of one type or of two.
use vstd::prelude::*;

verus! {

/// A point whose coordinates share one type.
pub struct Point<T> {
    pub x: T,
    pub y: T,
}

impl<T> Point<T> {
    /// A point at `(x, y)`.
    pub fn new(x: T, y: T) -> (r: Point<T>)
        ensures
            r.x == x,
            r.y == y,
    {
        Point { x, y }
    }

    /// The first coordinate.
    pub fn x(&self) -> (r: &T)
        ensures
            *r == self.x,
    {
        &self.x
    }
}

/// A point whose coordinates may differ in type.
pub struct PPoint<X1, Y1> {
    pub x: X1,
    pub y: Y1,
}

impl<X1, Y1> PPoint<X1, Y1> {
    /// A point with the first coordinate of `self` and the second of `other`.
    pub fn mixup<X2, Y2>(self, other: PPoint<X2, Y2>) -> (r: PPoint<X1, Y2>)
        ensures
            r.x == self.x,
            r.y == other.y,
    {
        PPoint { x: self.x, y: other.y }
    }
}

} // verus!
