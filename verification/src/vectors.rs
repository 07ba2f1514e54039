//! Vectors: growable collections on the heap, filled, copied, extended and
//! sliced, with the exact contents tracked throughout.

use vstd::prelude::*;

verus! {

/// Accepts only a vector of bytes; used to pin a value's type.
pub fn is_vec(_v: Vec<u8>) {
}

/// Builds a vector from a literal and copies it element by element; the
/// copy holds exactly the same values.
pub fn vectors_exercise_1() {
    let v: Vec<u8> = vec![1, 2, 3];
    is_vec(v.clone());

    let mut v1: Vec<u8> = Vec::new();

    let mut i: usize = 0;
    while i < v.len()
        invariant
            i <= v@.len(),
            v1@ =~= v@.subrange(0, i as int),
        decreases v@.len() - i,
    {
        v1.push(v[i]);
        i = i + 1;
    }

    assert(v1@ =~= v@);
    is_vec(v1);
}

/// Pops, pushes and then extends a second vector from the first; the two
/// end up equal.
pub fn vectors_exercise_2() {
    let mut v1: Vec<i32> = vec![1, 2, 4];
    let popped = v1.pop();
    assert(popped == Some(4i32));
    v1.push(3);
    assert(v1@ =~= seq![1, 2, 3]);

    let mut v2: Vec<i32> = Vec::new();
    let mut i: usize = 0;
    while i < v1.len()
        invariant
            i <= v1@.len(),
            v2@ =~= v1@.subrange(0, i as int),
        decreases v1@.len() - i,
    {
        v2.push(v1[i]);
        i = i + 1;
    }

    assert(v1@ =~= v2@);
}

/// Grows a vector in place: existing positions are incremented, missing
/// positions are appended, and the final contents are exact.
pub fn vectors_exercise_4() {
    let mut v: Vec<u64> = vec![1, 2, 3];
    let ghost original: Seq<u64> = seq![1, 2, 3];

    let mut i: usize = 0;
    while i < 5
        invariant
            i <= 5,
            original =~= seq![1u64, 2, 3],
            v@.len() == if i <= 3 {
                3int
            } else {
                i as int
            },
            forall|j: int| 0 <= j < 3 ==> v@[j] == original[j] + if j < i {
                1int
            } else {
                0int
            },
            forall|j: int| 3 <= j < v@.len() ==> v@[j] == j + 2,
        decreases 5 - i,
    {
        if i < v.len() {
            proof {
                assert(v@[i as int] == original[i as int]);
            }
            let x = v[i];
            v[i] = x + 1;
        } else {
            v.push((i + 2) as u64);
        }
        i = i + 1;
    }

    assert(v@ =~= seq![2u64, 3, 4, 5, 6]);
}

/// A slice of the whole vector sees every element; after a push, a fresh
/// slice sees the new element too.
pub fn vectors_exercise_5() {
    let mut v: Vec<i32> = vec![1, 2, 3];

    let len = v.len();
    let slice1 = &v[0..len];
    assert(slice1@ =~= v@);

    v.push(4);
    let slice3 = &v[0..4];
    assert(slice3@ =~= seq![1, 2, 3, 4]);
}

} // verus!
