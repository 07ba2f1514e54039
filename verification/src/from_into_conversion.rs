//! Conversions: `From` for infallible changes of type, a fallible
//! constructor for conversions that can be refused, and parsing text into
//! numbers.

use crate::result_class::parse_i32;
use crate::result_class::spec_parse_i32;
use vstd::prelude::*;

verus! {

/// A number wrapped in a named type.
#[derive(Debug)]
pub struct Number {
    pub value: i32,
}

impl From<i32> for Number {
    /// Wraps the plain value.
    fn from(n: i32) -> (r: Self) {
        Self { value: n }
    }
}

impl vstd::std_specs::convert::FromSpecImpl<i32> for Number {
    open spec fn obeys_from_spec() -> bool {
        true
    }

    open spec fn from_spec(n: i32) -> Self {
        Number { value: n }
    }
}

/// Wraps a value through `From` and reads it back unchanged.
pub fn test_from_into() {
    let num = Number::from(30);
    assert(num.value == 30);

    let num: Number = 30i32.into();
    assert(num.value == 30);
}

/// A borrowed string slice owns nothing; converting it to a `String`
/// copies the characters.
pub fn converting_string_slice_into_string() {
    let my_str = "hello";

    let string1 = String::from_str(my_str);
    let string2 = my_str.to_owned();

    assert(string1@ == my_str@);
    assert(string2@ == my_str@);
}

/// A number that is known to be even.
#[derive(Debug, PartialEq, Eq, Structural)]
pub struct EvenNum(pub i32);

impl EvenNum {
    /// Accepts exactly the even values.
    pub fn try_from(value: i32) -> (r: Result<Self, ()>)
        ensures
            value % 2 == 0 ==> r == Ok::<EvenNum, ()>(EvenNum(value)),
            value % 2 != 0 ==> r == Err::<EvenNum, ()>(()),
    {
        if value % 2 == 0 {
            Ok(EvenNum(value))
        } else {
            Err(())
        }
    }
}

/// Converts an even and an odd value; only the even one is accepted.
pub fn tryfrom_tryinto_exercise_02() {
    let eight = EvenNum::try_from(8);
    assert(eight == Ok::<EvenNum, ()>(EvenNum(8)));

    let five = EvenNum::try_from(5);
    assert(five == Err::<EvenNum, ()>(()));
}

/// Parses three numerals and sums them; each parse is pinned to the text.
pub fn from_into_exercise_04() {
    proof {
        reveal_strlit("5");
        reveal_strlit("10");
        reveal_strlit("20");
        reveal_with_fuel(crate::result_class::digits_value, 3);
        assert("5"@.drop_last() =~= Seq::<char>::empty());
        assert("10"@.drop_last() =~= seq!['1']);
        assert("20"@.drop_last() =~= seq!['2']);
        assert(seq!['1'].drop_last() =~= Seq::<char>::empty());
        assert(seq!['2'].drop_last() =~= Seq::<char>::empty());
        assert(spec_parse_i32("5"@) == Some(5int));
        assert(spec_parse_i32("10"@) == Some(10int));
        assert(spec_parse_i32("20"@) == Some(20int));
    }

    let parsed = match parse_i32("5") {
        Ok(n) => n,
        Err(_) => 0,
    };
    let turbo_parsed = match parse_i32("10") {
        Ok(n) => n,
        Err(_) => 0,
    };
    let from_str = match parse_i32("20") {
        Ok(n) => n,
        Err(_) => 0,
    };
    let total = parsed + turbo_parsed + from_str;

    assert(total == 35);
}

} // verus!
