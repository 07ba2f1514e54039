//! Hand-rolled lazy iterators: a bounded counter, and loops that fill and
//! consume vectors one element at a time.

use vstd::prelude::*;

verus! {

/// A lazy producer of values: each `next` call either yields one value and
/// advances the state, or reports that the sequence is exhausted.
pub trait Iterator: Sized {
    type Item;

    /// The successor state and the yielded value, at the spec level.
    spec fn next_spec(&self) -> (Self, Option<Self::Item>);

    /// Yields the next value, advancing the state exactly as `next_spec`
    /// says.
    fn next(&mut self) -> (r: Option<Self::Item>)
        ensures
            *final(self) == old(self).next_spec().0,
            r == old(self).next_spec().1,
    ;
}

/// Counts from 1 up to 5 and then stops yielding values.
pub struct Counter {
    pub count: u32,
}

impl Counter {
    /// A fresh counter that has not yielded anything yet.
    pub fn new() -> (c: Self)
        ensures
            c.count == 0,
    {
        Counter { count: 0 }
    }
}

impl Iterator for Counter {
    type Item = u32;

    open spec fn next_spec(&self) -> (Self, Option<u32>) {
        if self.count < 5 {
            (Counter { count: (self.count + 1) as u32 }, Some((self.count + 1) as u32))
        } else {
            (Counter { count: self.count }, None)
        }
    }

    fn next(&mut self) -> Option<u32> {
        if self.count < 5 {
            self.count = self.count + 1;
            Some(self.count)
        } else {
            None
        }
    }
}

/// Pulls all five values out of a fresh counter and checks each of them,
/// then checks that the counter is exhausted.
pub fn example_iterators_06() {
    let mut counter = Counter::new();

    let r1 = counter.next();
    assert(r1 == Some(1u32));
    let r2 = counter.next();
    assert(r2 == Some(2u32));
    let r3 = counter.next();
    assert(r3 == Some(3u32));
    let r4 = counter.next();
    assert(r4 == Some(4u32));
    let r5 = counter.next();
    assert(r5 == Some(5u32));
    let r6 = counter.next();
    assert(r6 == None::<u32>);
}

/// Pulls the first five values out of a Fibonacci-seeded generator and
/// checks each of them: 1, 1, 2, 3, 5.
pub fn example_iterators_07() {
    let mut fib = crate::generator::Generator::fibonacci();

    let r1 = fib.produce_next();
    assert(r1 == Ok::<u64, crate::generator::Overflow>(1u64));
    let r2 = fib.produce_next();
    assert(r2 == Ok::<u64, crate::generator::Overflow>(1u64));
    let r3 = fib.produce_next();
    assert(r3 == Ok::<u64, crate::generator::Overflow>(2u64));
    let r4 = fib.produce_next();
    assert(r4 == Ok::<u64, crate::generator::Overflow>(3u64));
    let r5 = fib.produce_next();
    assert(r5 == Ok::<u64, crate::generator::Overflow>(5u64));
}

/// Fills a vector with the numbers 0 through 99 and checks its length.
pub fn example_iterators_01_3() {
    let mut v: Vec<u64> = Vec::new();
    let mut n: u64 = 0;
    while n < 100
        invariant
            n <= 100,
            v@.len() == n,
        decreases 100 - n,
    {
        v.push(n);
        n = n + 1;
    }

    assert(v@.len() == 100);
}

/// Builds a new vector by adding one to every element of the input, as a
/// mapping pass over the whole vector.
pub fn example_iterators_10(v1: &Vec<i32>) -> (v2: Vec<i32>)
    requires
        forall|i: int| 0 <= i < v1@.len() ==> v1@[i] < i32::MAX,
    ensures
        v2@.len() == v1@.len(),
        forall|i: int| 0 <= i < v1@.len() ==> v2@[i] == v1@[i] + 1,
{
    let mut v2: Vec<i32> = Vec::new();
    let mut k: usize = 0;
    while k < v1.len()
        invariant
            k <= v1@.len(),
            v2@.len() == k,
            forall|i: int| 0 <= i < v1@.len() ==> v1@[i] < i32::MAX,
            forall|i: int| 0 <= i < k ==> v2@[i] == v1@[i] + 1,
        decreases v1@.len() - k,
    {
        v2.push(v1[k] + 1);
        k = k + 1;
    }
    v2
}

/// Sums the elements of a vector of bytes, as a consuming pass over the
/// whole vector; the accumulator is wide enough whenever the worst-case
/// sum fits it.
pub fn example_iterators_08(v1: &Vec<u8>) -> (total: u64)
    requires
        255 * v1@.len() <= u64::MAX,
    ensures
        total == sum_of(v1@),
{
    let mut total: u64 = 0;
    let mut k: usize = 0;
    while k < v1.len()
        invariant
            k <= v1@.len(),
            255 * v1@.len() <= u64::MAX,
            total == sum_of(v1@.subrange(0, k as int)),
            total <= 255 * k,
        decreases v1@.len() - k,
    {
        proof {
            assert(v1@.subrange(0, k + 1 as int).drop_last() =~= v1@.subrange(0, k as int));
        }
        total = total + v1[k] as u64;
        k = k + 1;
    }
    proof {
        assert(v1@.subrange(0, v1@.len() as int) =~= v1@);
    }
    total
}

/// The sum of a sequence of bytes, widened so it cannot wrap.
pub open spec fn sum_of(s: Seq<u8>) -> int
    decreases s.len(),
{
    if s.len() == 0 {
        0
    } else {
        sum_of(s.drop_last()) + s.last()
    }
}

} // verus!
