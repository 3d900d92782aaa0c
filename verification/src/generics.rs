use vstd::prelude::*;

verus! {

pub struct Point<T> {
    pub x: T,
    pub y: T,
}

impl<U> Point<U> {
    pub fn x(&self) -> (r: &U)
        ensures
            r == &self.x,
    {
        &self.x
    }
}

pub struct Point2<T, U> {
    pub x: T,
    pub y: U,
}

impl<X1, Y1> Point2<X1, Y1> {
    /// A point with this point's `x` and the other point's `y`.
    pub fn mixup<X2, Y2>(self, other: Point2<X2, Y2>) -> (r: Point2<X1, Y2>)
        ensures
            r.x == self.x,
            r.y == other.y,
    {
        Point2 { x: self.x, y: other.y }
    }
}

pub struct Pair<T> {
    pub x: T,
    pub y: T,
}

impl<T> Pair<T> {
    pub fn new(x: T, y: T) -> (r: Self)
        ensures
            r.x == x,
            r.y == y,
    {
        Self { x, y }
    }
}

} // verus!
