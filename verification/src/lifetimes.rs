//! Lifetimes and elision: returning borrowed data whose validity is tied to
//! an input, and references that outlive every scope.

use vstd::prelude::*;
use vstd::string::StringSliceAdditionalSpecFns;

verus! {

/// The fixed reference point some borrows are compared against.
pub const NUM: i32 = 18;

/// A borrow must not outlive the value it points into; a reference created
/// inside a scope dies with it.
pub fn example_dangling_reference_01() {
    let x: i32 = 5;
    let r = &x;
    assert(*r == 5);
}

/// The longer of two string slices, measured in bytes as `str::len`
/// measures them; ties go to the second.
pub fn longest<'a>(x: &'a str, y: &'a str) -> (r: &'a str)
    ensures
        r@ == if x.spec_bytes().len() > y.spec_bytes().len() {
            x@
        } else {
            y@
        },
{
    if x.as_bytes().len() > y.as_bytes().len() {
        x
    } else {
        y
    }
}

/// A string literal lives for the whole program, so it can be handed out
/// without borrowing from any input.
pub fn valid_output() -> (s: &'static str)
    ensures
        s@ == "foo"@,
{
    "foo"
}

/// A counter that owns its value and is mutated through methods.
pub struct Owner(pub i32);

impl Owner {
    /// Increments the owned value by one.
    pub fn add_one(&mut self)
        requires
            old(self).0 < i32::MAX,
        ensures
            final(self).0 == old(self).0 + 1,
    {
        self.0 = self.0 + 1;
    }
}

/// Mutating through a method borrows the owner only for the call.
pub fn example_lifetime_annotating_04() {
    let mut owner = Owner(18);
    owner.add_one();
    assert(owner.0 == 19);
}

/// A borrowed excerpt of a longer text.
pub struct ImportantExcerpt {
    pub part: &'static str,
}

impl ImportantExcerpt {
    /// The importance level of the excerpt; always the same grade.
    pub fn level(&self) -> (l: i32)
        ensures
            l == 3,
    {
        3
    }
}

/// Hands the borrowed slice straight back; one input, so the output borrows
/// from it.
pub fn first_word(s: &str) -> (r: &str)
    ensures
        r@ == s@,
{
    s
}

/// Like `first_word`, with the elided lifetime written out half-way.
pub fn first_word_2<'a>(s: &'a str) -> (r: &str)
    ensures
        r@ == s@,
{
    s
}

/// Like `first_word`, with both lifetimes written out in full.
pub fn first_word_3<'a>(s: &'a str) -> (r: &'a str)
    ensures
        r@ == s@,
{
    s
}

/// The longer of two slices, in bytes, that must share one lifetime.
pub fn longest_3<'a>(x: &'a str, y: &'a str) -> (r: &'a str)
    ensures
        r@ == if x.spec_bytes().len() > y.spec_bytes().len() {
            x@
        } else {
            y@
        },
{
    if x.as_bytes().len() > y.as_bytes().len() {
        x
    } else {
        y
    }
}

/// Hands a borrow straight through, annotated.
pub fn pass<'a>(x: &'a i32) -> (r: &'a i32)
    ensures
        r == x,
{
    x
}

/// Hands a borrow straight through, elided.
pub fn pass_elided(x: &i32) -> (r: &i32)
    ensures
        r == x,
{
    x
}

/// Returns the first of two borrows with distinct lifetimes.
pub fn logest<'a, 'b>(x: &'a str, _y: &'b str) -> (r: &'a str)
    ensures
        r@ == x@,
{
    x
}

/// A counter like `Owner`, used to show elided method lifetimes.
pub struct Owner1(pub i32);

impl Owner1 {
    /// Increments the owned value, lifetime written out.
    pub fn add_one<'a>(&'a mut self)
        requires
            old(self).0 < i32::MAX,
        ensures
            final(self).0 == old(self).0 + 1,
    {
        self.0 = self.0 + 1;
    }

    /// Increments the owned value, lifetime elided.
    pub fn add_one_elided(&mut self)
        requires
            old(self).0 < i32::MAX,
        ensures
            final(self).0 == old(self).0 + 1,
    {
        self.0 = self.0 + 1;
    }
}

/// A string literal has the static lifetime.
pub fn example_static_lifetime_01() {
    let s: &'static str = "Hello, world!";
    assert(s@ == "Hello, world!"@);
}

/// Accepts only borrows that live for the whole program, and checks the
/// one word they must carry.
pub fn need_static(r: &'static str)
    requires
        r@ == "hello"@,
{
    let is_hello = r;
    assert(is_hello@ == "hello"@);
}

/// Both a plain literal and an annotated one satisfy a `'static` bound.
pub fn example_static_lifetime_02() {
    let option_01 = "hello";
    let option_02: &'static str = "hello";

    need_static(option_01);
    need_static(option_02);
}

/// A `'static` borrow can be coerced to any shorter lifetime.
pub fn coerce_static<'a>(_x: &'a i32) -> (r: &'a i32)
    ensures
        *r == 18,
{
    &NUM
}

} // verus!
