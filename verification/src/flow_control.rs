//! Flow control: loops that count, break out early, continue, and jump
//! between labelled levels, each with its final count pinned down.

use vstd::prelude::*;

verus! {

/// Counts up to a target twice, once stopping with `break` and once by
/// skipping ahead with `continue`; both runs land on the same count.
pub fn continue_break_loop_example() {
    let mut n1: i32 = 0;
    let mut n2: i32 = 0;

    let mut i: i32 = 0;
    while i <= 100
        invariant
            0 <= i <= 101,
            n1 == if i <= 66 { i } else { 66 },
        ensures
            n1 == 66,
        decreases 101 - i,
    {
        if n1 == 66 {
            break ;
        }
        n1 = n1 + 1;
        i = i + 1;
    }

    let mut j: i32 = 0;
    while j <= 100
        invariant
            0 <= j <= 101,
            n2 == if j <= 66 { j } else { 66 },
        ensures
            n2 == 66,
        decreases 101 - j,
    {
        if n2 != 66 {
            n2 = n2 + 1;
            j = j + 1;
            continue ;
        }
        break ;
    }

    assert(n1 == 66);
    assert(n2 == 66);
}

/// An unbounded loop that breaks with a value once the count reaches ten;
/// the loop's result is twice the final count.
pub fn loop_example() -> (result: u32)
    ensures
        result == 20,
{
    let mut count: u32 = 0;
    let mut result: u32 = 0;

    loop
        invariant_except_break
            count <= 9,
            result == 0,
        ensures
            count == 10 && result == 20,
        decreases 10 - count,
    {
        count = count + 1;

        if count == 10 {
            result = count * 2;
            break ;
        }
    }

    assert(count == 10);
    result
}

/// Nested labelled loops: the inner loop pushes the count to 20, the outer
/// level adds 5 per round and leaves at 30.
pub fn nested_loops_example() {
    let mut count: i32 = 0;

    'outer: loop
        invariant_except_break
            count == 0 || count == 25,
        ensures
            count == 30,
        decreases 30 - count,
    {
        let ghost entry_count: int = count as int;

        'inner1: loop
            invariant_except_break
                entry_count == 0 || entry_count == 25,
                if entry_count == 25 {
                    count == 25
                } else {
                    count <= 20 && count % 2 == 0
                },
            ensures
                count == if entry_count == 25 {
                    25int
                } else {
                    20int
                },
            decreases 25 - count,
        {
            if count >= 20 {
                break 'inner1;
            }
            count = count + 2;
        }

        count = count + 5;

        loop
            invariant_except_break
                (entry_count == 0 && count == 25) || (entry_count == 25 && count == 30),
            ensures
                entry_count == 0 && count == 25,
            decreases 30 - count,
        {
            if count >= 30 {
                break 'outer;
            }

            // back to the outer loop for another round
            break ;
        }
    }

    assert(count == 30);
}

} // verus!
