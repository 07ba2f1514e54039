//! Slices: borrowing a contiguous part of a collection without taking
//! ownership of the whole.

use vstd::prelude::*;

verus! {

/// Borrows the middle of an array and checks both borrowed elements.
pub fn example_slice_01() {
    let a: [i32; 5] = [1, 2, 3, 4, 5];

    let slice = &a[1..3];

    assert(slice@ =~= seq![2, 3]);
}

/// Borrows three elements of an array, leaving the ends out.
pub fn example_slice_03() {
    let arr: [i32; 5] = [1, 2, 3, 4, 5];

    let slice = &arr[1..4];

    assert(slice@ =~= seq![2, 3, 4]);
}

} // verus!
