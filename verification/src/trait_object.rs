//! Runtime polymorphism over a closed set of variants, modelled as tagged
//! unions: each variant is a concrete struct, and a choosing function picks
//! one by name.

use vstd::prelude::*;

verus! {

/// The capability of being one of the animals handed out by name.
pub trait Animal2 {
}

/// The dog variant of [`Animal2`].
pub struct Dog2;

/// The cat variant of [`Animal2`].
pub struct Cat2;

impl Animal2 for Dog2 {
}

impl Animal2 for Cat2 {
}

/// One animal out of the two [`Animal2`] variants.
pub enum Animal2Kind {
    Dog(Dog2),
    Cat(Cat2),
}

/// Picks an animal by its name; only the two known names are accepted.
pub fn reuturn_animal_2(s: &str) -> (r: Animal2Kind)
    requires
        s@ == "dog"@ || s@ == "cat"@,
    ensures
        s@ == "dog"@ ==> r is Dog,
        s@ == "cat"@ ==> r is Cat,
{
    proof {
        reveal_strlit("dog");
        reveal_strlit("cat");
        assert("dog"@[0] != "cat"@[0]);
    }
    let key = String::from_str(s);
    if key == String::from_str("dog") {
        Animal2Kind::Dog(Dog2)
    } else {
        Animal2Kind::Cat(Cat2)
    }
}

/// The data every animal carries.
#[derive(Debug)]
pub struct Animal3 {
    pub name: String,
    pub age: u8,
}

/// The capability set of the animals below.
pub trait Actions {
}

/// A dog with its data.
#[derive(Debug)]
pub struct Dog {
    pub info: Animal3,
}

/// A cat with its data.
#[derive(Debug)]
pub struct Cat {
    pub info: Animal3,
}

impl Actions for Dog {
}

impl Actions for Cat {
}

/// One animal out of the two [`Actions`] variants.
pub enum ActionsKind {
    Dog(Dog),
    Cat(Cat),
}

/// Builds the named animal with its fixed data; only the two known names
/// are accepted.
pub fn return_animal(s: &str) -> (r: ActionsKind)
    requires
        s@ == "dog"@ || s@ == "cat"@,
    ensures
        s@ == "dog"@ ==> {
            &&& r matches ActionsKind::Dog(d)
            &&& d.info.name@ == "Dog"@
            &&& d.info.age == 5
        },
        s@ == "cat"@ ==> {
            &&& r matches ActionsKind::Cat(c)
            &&& c.info.name@ == "Cat"@
            &&& c.info.age == 3
        },
{
    proof {
        reveal_strlit("dog");
        reveal_strlit("cat");
        assert("dog"@[0] != "cat"@[0]);
    }
    let key = String::from_str(s);
    if key == String::from_str("dog") {
        ActionsKind::Dog(Dog { info: Animal3 { name: String::from_str("Dog"), age: 5 } })
    } else {
        ActionsKind::Cat(Cat { info: Animal3 { name: String::from_str("Cat"), age: 3 } })
    }
}

/// A bird that can quack in its own way.
pub trait Bird {
    /// The bird's call, at the spec level.
    spec fn quack_spec(&self) -> Seq<char>;

    /// The bird's call, as text.
    fn quack(&self) -> (r: String)
        ensures
            r@ == self.quack_spec(),
    ;
}

/// A duck.
pub struct Duck;

/// A swan.
pub struct Swan;

impl Duck {
    /// What the duck announces when it flies.
    pub fn fly(&self) -> (r: &'static str)
        ensures
            r@ == "Look, the duck is flying!"@,
    {
        "Look, the duck is flying!"
    }
}

impl Swan {
    /// What the swan announces when it flies.
    pub fn fly(&self) -> (r: &'static str)
        ensures
            r@ == "Look, the duck... oh sorry, the swan is flying!"@,
    {
        "Look, the duck... oh sorry, the swan is flying!"
    }
}

impl Bird for Duck {
    open spec fn quack_spec(&self) -> Seq<char> {
        "duck duck"@
    }

    fn quack(&self) -> String {
        String::from_str("duck duck")
    }
}

impl Bird for Swan {
    open spec fn quack_spec(&self) -> Seq<char> {
        "swan swan"@
    }

    fn quack(&self) -> String {
        String::from_str("swan swan")
    }
}

} // verus!
