//! Associated functions: constructors that are called on the type itself
//! rather than on an instance.

use vstd::prelude::*;

verus! {

/// An axis-aligned rectangle, built through its constructor.
pub struct Rectangle {
    pub width: u32,
    pub height: u32,
}

impl Rectangle {
    /// Builds a rectangle from its two side lengths.
    pub fn new(width: u32, height: u32) -> (r: Self)
        ensures
            r.width == width,
            r.height == height,
    {
        Self { width, height }
    }
}

/// A traffic light that always starts out red.
pub struct TrafficLight {
    color: String,
}

impl TrafficLight {
    /// The state the light currently shows, as a sequence of characters.
    pub closed spec fn state(&self) -> Seq<char> {
        self.color@
    }

    /// A fresh light, in its initial state.
    pub fn new() -> (light: Self)
        ensures
            light.state() == "red"@,
    {
        Self { color: String::from_str("red") }
    }

    /// The current state of the light, as text.
    pub fn get_state(&self) -> (state: &str)
        ensures
            state@ == self.state(),
    {
        self.color.as_str()
    }
}

} // verus!
