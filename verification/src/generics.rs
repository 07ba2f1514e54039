//! Generics: type parameters on structs and functions, a const-generic
//! array wrapper, and functions specialized to concrete instantiations.

use vstd::prelude::*;

verus! {

/// A marker value with no data of its own.
pub struct A;

/// A concrete wrapper around the marker value.
pub struct S(pub A);

/// A generic wrapper that can hold any type.
pub struct SGen<T>(pub T);

/// Accepts only the concrete wrapper.
pub fn reg_fn(_s: S) {
}

/// Accepts the generic wrapper instantiated at the marker type.
pub fn gen_spec_t(_s: SGen<A>) {
}

/// Accepts the generic wrapper instantiated at `i32`.
pub fn gen_spec_i32(_s: SGen<i32>) {
}

/// Accepts the generic wrapper at any instantiation.
pub fn generic<T>(_s: SGen<T>) {
}

/// Adds two numbers; the caller guarantees the sum fits.
pub fn sum(a: i64, b: i64) -> (r: i64)
    requires
        i64::MIN <= a + b <= i64::MAX,
    ensures
        r == a + b,
{
    a + b
}

/// A point whose two coordinates share one type.
pub struct Point<T> {
    pub x: T,
    pub y: T,
}

/// A point whose two coordinates may have different types.
#[derive(Clone, Debug)]
pub struct Point2<T, U> {
    pub x: T,
    pub y: U,
}

impl<T, U> Point2<T, U> {
    /// Combines this point's `x` with another point's `y`.
    pub fn mixup<V, W>(self, p2: Point2<V, W>) -> (r: Point2<T, W>)
        ensures
            r.x == self.x,
            r.y == p2.y,
    {
        Point2 { x: self.x, y: p2.y }
    }

    /// Combines the `x` of the first point with the `y` of the second,
    /// copying out of the borrowed points.
    pub fn mixup_associated<V, W: Copy>(p1: &Point2<T, U>, p2: &Point2<V, W>) -> (r: Point2<
        T,
        W,
    >) where T: Copy
        ensures
            r.x == p1.x,
            r.y == p2.y,
    {
        Point2 { x: p1.x, y: p2.y }
    }
}

/// A single generic value with an accessor.
pub struct Val<T> {
    pub val: T,
}

impl<T> Val<T> {
    /// A borrow of the held value.
    pub fn value(&self) -> (v: &T)
        ensures
            v == self.val,
    {
        &self.val
    }
}

/// A fixed-size array whose length is part of the type.
#[derive(Debug)]
pub struct Array<T, const N: usize> {
    pub data: [T; N],
}

} // verus!
