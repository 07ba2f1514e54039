//! Options: handling a value that may be absent, without a null.

use vstd::prelude::*;

verus! {

/// Adds one inside the option, leaving an absent value absent.
pub fn plus_one(x: Option<i32>) -> (r: Option<i32>)
    requires
        x matches Some(i) ==> i < i32::MAX,
    ensures
        x matches Some(i) ==> r == Some((i + 1) as i32),
        x is None ==> r == None::<i32>,
{
    match x {
        None => None,
        Some(i) => Some(i + 1),
    }
}

/// Feeds a present and an absent value through `plus_one`.
pub fn example_option_enum() {
    let five = Some(5i32);
    let six = plus_one(five);
    assert(six == Some(6i32));

    let none = plus_one(None);
    assert(none == None::<i32>);
}

} // verus!
