//! Borrowing: reading data through references without taking ownership.

use vstd::prelude::*;
use vstd::utf8::encode_utf8;

verus! {

/// The length of a borrowed string, in bytes of its UTF-8 encoding; the
/// string stays usable at the caller.
pub fn calculate_length(s: &String) -> (len: usize)
    ensures
        len == encode_utf8(s@).len(),
{
    s.as_str().as_bytes().len()
}

/// Any number of shared borrows of one value may live side by side.
pub fn violate_borrowing_1() {
    let s1 = String::from_str("hello");
    let r1 = &s1;
    let r2 = &s1;
    assert(r1@ == s1@ && r2@ == s1@);
}

/// One exclusive borrow of a value stands alone.
pub fn violate_borrowing_2() {
    let mut s1 = String::from_str("hello");
    let r1 = &mut s1;
    assert(r1@ == "hello"@);
}

/// Borrowing a string to measure it leaves the original intact.
pub fn test_borrowing() {
    let s1 = String::from_str("hello");
    let len = calculate_length(&s1);
    assert(len == 5) by {
        reveal_strlit("hello");
        vstd::utf8::is_ascii_chars_encode_utf8(s1@);
    }
    assert(s1@ == "hello"@);
}

} // verus!
