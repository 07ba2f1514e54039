//! Passing owned values into and out of functions: every hand-off is exact,
//! so the contracts pin the returned values completely.

use vstd::prelude::*;

verus! {

/// Hands a freshly created string to the caller.
pub fn gives_ownership() -> (s: String)
    ensures
        s@ == "hello"@,
{
    let some_string = String::from_str("hello");
    some_string
}

/// Takes ownership of a string and hands the very same value back.
pub fn takes_and_gives_back(a_string: String) -> (s: String)
    ensures
        s == a_string,
{
    a_string
}

/// Moves strings through the two helpers above; the value that comes back
/// out is the value that went in.
pub fn ownership_vs_functions_2() {
    let s1 = gives_ownership();
    assert(s1@ == "hello"@);

    let s2 = String::from_str("hello");
    let s3 = takes_and_gives_back(s2);
    assert(s3@ == "hello"@);
}

} // verus!
