//! Traits: shared behavior declared once and implemented per type, with
//! each implementation's result pinned by a spec-level counterpart.

use vstd::prelude::*;

verus! {

/// A creature that makes a sound.
pub trait Animal {
    /// The sound this animal makes, at the spec level.
    spec fn sound_spec(&self) -> Seq<char>;

    /// The sound this animal makes, as text.
    fn sound(&self) -> (r: String)
        ensures
            r@ == self.sound_spec(),
    ;
}

/// A sheep; it bleats.
pub struct Sheep;

/// A cow; it moos.
pub struct Cow;

impl Animal for Sheep {
    open spec fn sound_spec(&self) -> Seq<char> {
        "Baa"@
    }

    fn sound(&self) -> String {
        String::from_str("Baa")
    }
}

impl Animal for Cow {
    open spec fn sound_spec(&self) -> Seq<char> {
        "Moo"@
    }

    fn sound(&self) -> String {
        String::from_str("Moo")
    }
}

/// Something that can summarize itself in one line.
pub trait Summary {
    /// The summary line, at the spec level.
    spec fn summarize_spec(&self) -> Seq<char>;

    /// The summary line, as text.
    fn summarize(&self) -> (r: String)
        ensures
            r@ == self.summarize_spec(),
    ;
}

/// A blog post with attribution.
pub struct Post {
    pub title: String,
    pub author: String,
    pub content: String,
}

impl Summary for Post {
    open spec fn summarize_spec(&self) -> Seq<char> {
        "The author of post "@ + self.title@ + " is "@ + self.author@
    }

    fn summarize(&self) -> String {
        let mut line = String::from_str("The author of post ");
        line.append(self.title.as_str());
        line.append(" is ");
        line.append(self.author.as_str());
        line
    }
}

/// A microblog entry.
pub struct Weibo {
    pub username: String,
    pub content: String,
}

impl Summary for Weibo {
    open spec fn summarize_spec(&self) -> Seq<char> {
        self.username@ + " published a weibo "@ + self.content@
    }

    fn summarize(&self) -> String {
        let mut line = self.username.clone();
        line.append(" published a weibo ");
        line.append(self.content.as_str());
        line
    }
}

/// The breaking-news line for any summarizable item.
pub fn notify_parameters(item: &impl Summary) -> (r: String)
    ensures
        r@ == "Breaking news! "@ + item.summarize_spec(),
{
    let mut line = String::from_str("Breaking news! ");
    line.append(item.summarize().as_str());
    line
}

/// The breaking-news line for any animal, by trait bound.
pub fn notify<T: Animal>(cow: &T) -> (r: String)
    ensures
        r@ == "Breaking news! "@ + cow.sound_spec(),
{
    let mut line = String::from_str("Breaking news! ");
    line.append(cow.sound().as_str());
    line
}

/// The line both animals shout, with `impl Trait` parameters.
pub fn sound(sheep: &impl Animal, cow: &impl Animal) -> (r: String)
    ensures
        r@ == "Animals sounds! "@ + sheep.sound_spec() + " and "@ + cow.sound_spec(),
{
    let mut line = String::from_str("Animals sounds! ");
    line.append(sheep.sound().as_str());
    line.append(" and ");
    line.append(cow.sound().as_str());
    line
}

/// The line both animals shout, with a single trait bound for both.
pub fn soudn<T: Animal>(sheep: &T, cow: &T) -> (r: String)
    ensures
        r@ == "Animals sounds! "@ + sheep.sound_spec() + " and "@ + cow.sound_spec(),
{
    let mut line = String::from_str("Animals sounds! ");
    line.append(sheep.sound().as_str());
    line.append(" and ");
    line.append(cow.sound().as_str());
    line
}

/// A dog; it woofs.
pub struct Dog;

/// A cat; it meows.
pub struct Cat;

impl Animal for Dog {
    open spec fn sound_spec(&self) -> Seq<char> {
        "Woof"@
    }

    fn sound(&self) -> String {
        String::from_str("Woof")
    }
}

impl Animal for Cat {
    open spec fn sound_spec(&self) -> Seq<char> {
        "Meow"@
    }

    fn sound(&self) -> String {
        String::from_str("Meow")
    }
}

/// Hands out some animal that woofs.
pub fn return_dog() -> (r: Dog)
    ensures
        r.sound_spec() == "Woof"@,
{
    Dog
}

/// Hands out some animal that meows.
pub fn return_cat() -> (r: Cat)
    ensures
        r.sound_spec() == "Meow"@,
{
    Cat
}

/// A greeter with two lines of dialogue.
pub trait Hello {
    /// The greeting, at the spec level.
    spec fn hi_spec(&self) -> Seq<char>;

    /// The self-description, at the spec level.
    spec fn something_spec(&self) -> Seq<char>;

    /// The greeting, as text.
    fn say_hi(&self) -> (r: String)
        ensures
            r@ == self.hi_spec(),
    ;

    /// The self-description, as text.
    fn say_something(&self) -> (r: String)
        ensures
            r@ == self.something_spec(),
    ;
}

/// A student; greets plainly.
pub struct Student;

/// A teacher; greets with an introduction.
pub struct Teacher;

impl Hello for Student {
    open spec fn hi_spec(&self) -> Seq<char> {
        "hi"@
    }

    open spec fn something_spec(&self) -> Seq<char> {
        "I am a good student"@
    }

    fn say_hi(&self) -> String {
        String::from_str("hi")
    }

    fn say_something(&self) -> String {
        String::from_str("I am a good student")
    }
}

impl Hello for Teacher {
    open spec fn hi_spec(&self) -> Seq<char> {
        "Hi, I'm your new teacher"@
    }

    open spec fn something_spec(&self) -> Seq<char> {
        "I'm not a bad teacher"@
    }

    fn say_hi(&self) -> String {
        String::from_str("Hi, I'm your new teacher")
    }

    fn say_something(&self) -> String {
        String::from_str("I'm not a bad teacher")
    }
}

/// Accepts two values through inline trait bounds and reports a fixed
/// status code.
pub fn some_function<T: std::fmt::Display + Clone, U: Clone + std::fmt::Debug>(_t: &T, _u: &U) -> (r:
    i32)
    ensures
        r == 0,
{
    0
}

/// The same shape as `some_function`, with the bounds moved to a `where`
/// clause for readability.
pub fn some_function_where_clause<T, U>(_t: &T, _u: &U) -> (r: i32) where
    T: std::fmt::Display + Clone,
    U: Clone + std::fmt::Debug,

    ensures
        r == 0,
{
    0
}

/// Multiplies two numbers; the caller guarantees the product fits.
pub fn multiply(n1: i64, n2: i64) -> (r: i64)
    requires
        i64::MIN <= n1 * n2 <= i64::MAX,
    ensures
        r == n1 * n2,
{
    n1 * n2
}

/// A type that can transform a value of itself into another.
pub trait MyTrait: Sized {
    /// The transformed value, at the spec level.
    spec fn f_spec(&self) -> Self;

    /// The transformed value.
    fn f(&self) -> (r: Self)
        ensures
            r == self.f_spec(),
    ;
}

impl MyTrait for u32 {
    open spec fn f_spec(&self) -> u32 {
        42
    }

    fn f(&self) -> u32 {
        42
    }
}

impl MyTrait for String {
    open spec fn f_spec(&self) -> String {
        *self
    }

    fn f(&self) -> String {
        self.clone()
    }
}

/// Applies the trait's transform through a bound; resolved statically.
pub fn my_function<T: MyTrait>(x: T) -> (r: T)
    ensures
        r == x.f_spec(),
{
    x.f()
}

} // verus!
