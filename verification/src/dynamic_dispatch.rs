//! Choosing one of several behaviors at runtime: the set of variants is
//! closed, so a tagged union carries the choice and a method dispatches
//! on it.

use vstd::prelude::*;

verus! {

/// One of the two animals the chooser can hand out.
pub enum Animal {
    Cat,
    Dog,
}

/// The noise each animal makes.
pub open spec fn noise_text(a: Animal) -> Seq<char> {
    match a {
        Animal::Cat => "Meow"@,
        Animal::Dog => "woff"@,
    }
}

impl Animal {
    /// The noise of this animal, dispatched on the variant.
    pub fn noise(&self) -> (r: &'static str)
        ensures
            r@ == noise_text(*self),
    {
        match self {
            Animal::Cat => "Meow",
            Animal::Dog => "woff",
        }
    }
}

/// Picks an animal from a number: small numbers give the cat, the rest the
/// dog.
pub fn random_animal(random_number: u8) -> (a: Animal)
    ensures
        a == if random_number < 10 {
            Animal::Cat
        } else {
            Animal::Dog
        },
{
    if random_number < 10 {
        Animal::Cat
    } else {
        Animal::Dog
    }
}

} // verus!
