//! Pattern matching: exhaustive matches over enums, guards, bindings, and
//! ignoring parts of a compound value.

use vstd::prelude::*;

verus! {

/// A denomination of US coin.
pub enum Coin {
    Penny,
    Nickel,
    Dime,
    Quarter,
}

/// The face value of a coin, in cents.
pub open spec fn coin_cents(coin: Coin) -> u8 {
    match coin {
        Coin::Penny => 1,
        Coin::Nickel => 5,
        Coin::Dime => 10,
        Coin::Quarter => 25,
    }
}

/// Matches the coin against every denomination and returns its value.
pub fn pattern_match_example(coin: Coin) -> (coin_value: u8)
    ensures
        coin_value == coin_cents(coin),
{
    match coin {
        Coin::Penny => 1,
        Coin::Nickel => 5,
        Coin::Dime => 10,
        Coin::Quarter => 25,
    }
}

/// Whether a character is an ASCII letter or digit, stated as ranges.
pub open spec fn is_alphanumeric_char(c: char) -> bool {
    ('A' <= c <= 'Z') || ('a' <= c <= 'z') || ('0' <= c <= '9')
}

/// Checks a fixed roster of characters against the letter-or-digit ranges.
pub fn matches_example() {
    let alphabets: [char; 7] = ['a', 'E', 'Z', '0', 'x', '9', 'Y'];

    let mut i: usize = 0;
    while i < 7
        invariant
            i <= 7,
            alphabets@ =~= seq!['a', 'E', 'Z', '0', 'x', '9', 'Y'],
        decreases 7 - i,
    {
        let ab = alphabets[i];
        assert(is_alphanumeric_char(alphabets@[i as int]));
        i = i + 1;
    }
}

/// A value that is one of two tags.
pub enum MyEnum {
    Foo,
    Bar,
}

/// How many members of the sequence carry the `Foo` tag.
pub open spec fn count_foo(s: Seq<MyEnum>) -> int
    decreases s.len(),
{
    if s.len() == 0 {
        0
    } else {
        count_foo(s.drop_last()) + if s.last() is Foo {
            1int
        } else {
            0int
        }
    }
}

/// Walks a vector of tagged values and counts the `Foo` ones.
pub fn matches_example_2() {
    let mut v: Vec<MyEnum> = Vec::new();
    v.push(MyEnum::Foo);
    v.push(MyEnum::Bar);
    v.push(MyEnum::Foo);

    let mut count: u64 = 0;
    let mut i: usize = 0;
    while i < v.len()
        invariant
            i <= v@.len(),
            v@.len() == 3,
            count == count_foo(v@.subrange(0, i as int)),
            count <= i,
        decreases v@.len() - i,
    {
        proof {
            assert(v@.subrange(0, i + 1 as int).drop_last() =~= v@.subrange(0, i as int));
        }
        if matches!(v[i], MyEnum::Foo) {
            count = count + 1;
        }
        i = i + 1;
    }

    proof {
        assert(v@.subrange(0, 3) =~= v@);
        reveal_with_fuel(count_foo, 4);
    }
    assert(count == 2);
}

/// A message carrying a numeric id.
pub enum Message {
    Hello { id: i32 },
}

/// The three bands an id can fall in.
#[derive(Debug, PartialEq, Eq, Structural, Clone, Copy)]
pub enum IdBand {
    LowRange,
    ListedTrio,
    Other,
}

/// The band an id belongs to: the range 3 through 7, the listed trio 10,
/// 11, 12, or anything else.
pub open spec fn id_band(id: i32) -> IdBand {
    if 3 <= id <= 7 {
        IdBand::LowRange
    } else if id == 10 || id == 11 || id == 12 {
        IdBand::ListedTrio
    } else {
        IdBand::Other
    }
}

/// The band of the id a message carries.
pub open spec fn message_band(m: Message) -> IdBand {
    match m {
        Message::Hello { id } => id_band(id),
    }
}

/// Classifies a message's id by matching with a range pattern and an
/// alternation pattern, binding the matched value along the way.
pub fn match_example_4(msg: &Message) -> (band: IdBand)
    ensures
        band == message_band(*msg),
{
    match msg {
        Message::Hello { id: _id @ 3..=7 } => IdBand::LowRange,
        Message::Hello { id: _new_id @ (10 | 11 | 12) } => IdBand::ListedTrio,
        Message::Hello { id: _ } => IdBand::Other,
    }
}

/// A match guard picks the arm by an extra condition on the bound value.
pub fn match_guard_example() {
    let num = Some(4i32);
    let split: i32 = 5;

    match num {
        Some(x) if x < split => assert(x < split),
        Some(x) => assert(x >= split),
        None => (),
    }
}

/// Binds only the first and the last member of a long tuple, ignoring
/// everything in between.
pub fn match_ignoring_remaining_parts() {
    let numbers: (i32, i32, i32, i32, i32, i32, i32, i32, i32, i32, i32, i32) = (
        2,
        4,
        8,
        16,
        32,
        64,
        128,
        256,
        512,
        1024,
        2048,
        4096,
    );

    match numbers {
        (first, .., last) => {
            assert(first == 2);
            assert(last == 4096);
        },
    }
}

} // verus!
