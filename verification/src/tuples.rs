//! Tuples: fixed-size compound values, their destructuring, and tuple
//! structs.  Every extracted component is pinned by an assertion or a
//! contract.

use vstd::prelude::*;

verus! {

/// Builds tuples of mixed types, including a nested one.
pub fn tuples_01() {
    let t0: (u8, i16) = (0, -1);
    assert(t0.0 == 0 && t0.1 == -1);

    let t1: (u8, (i16, u32)) = (0, (-1, 1));
    assert(t1.1.0 == -1 && t1.1.1 == 1);

    let t: (u8, u16, i64, &str, String) = (1u8, 2u16, 3i64, "hello", String::from_str(", world"));
    assert(t.2 == 3);
}

/// Reads a member of a tuple through its index.
pub fn tuples_02() {
    let t: (&str, &str, &str) = ("i", "am", "sunface");

    assert(t.2@ == "sunface"@);
}

/// A tuple can hold many members; the first and the last stay addressable.
pub fn long_tuples() {
    let too_long_tuple: (u8, u8, u8, u8, u8, u8, u8, u8, u8, u8, u8, u8) = (
        1, 2, 3, 4, 5, 6, 7, 8, 9, 10, 11, 12,
    );
    assert(too_long_tuple.0 == 1);
    assert(too_long_tuple.11 == 12);
}

/// Takes a tuple apart into named bindings, once fully and once while
/// ignoring the middle member.
pub fn destructuring_tuples() {
    let t: (i32, i32, i32) = (1, 2, 3);

    let (a, b, c): (i32, i32, i32) = t;

    assert(a == 1);
    assert(b == 2);
    assert(c == 3);

    let (a, _, c): (i32, i32, i32) = t;

    assert(a == 1);
    assert(c == 3);
}

/// Assigns a whole tuple into bindings declared beforehand.
pub fn destructuring_assignments() {
    let (x, y, z): (i32, i32, i32) = (1, 2, 3);

    assert(x == 1);
    assert(y == 2);
    assert(z == 3);
}

/// The sum and the product of a pair, handed in and out as tuples.
pub fn sum_multiply(nums: (i32, i32)) -> (r: (i32, i32))
    requires
        i32::MIN <= nums.0 + nums.1 <= i32::MAX,
        i32::MIN <= nums.0 * nums.1 <= i32::MAX,
    ensures
        r.0 == nums.0 + nums.1,
        r.1 == nums.0 * nums.1,
{
    (nums.0 + nums.1, nums.0 * nums.1)
}

/// Feeds a pair through `sum_multiply` and checks both results.
pub fn tuples_as_function_arguments() {
    let (x, y): (i32, i32) = sum_multiply((2, 3));

    assert(x == 5);
    assert(y == 6);
}

/// A color given by its three channels.
#[derive(Debug)]
pub struct Color(pub i32, pub i32, pub i32);

/// A point in three-dimensional space.
#[derive(Debug)]
pub struct Point(pub i32, pub i32, pub i32);

/// Builds the black color and the origin point; same shape, distinct types.
pub fn tuple_structs() -> (r: (Color, Point))
    ensures
        r.0.0 == 0 && r.0.1 == 0 && r.0.2 == 0,
        r.1.0 == 0 && r.1.1 == 0 && r.1.2 == 0,
{
    let black = Color(0, 0, 0);
    let origin = Point(0, 0, 0);
    (black, origin)
}

} // verus!
