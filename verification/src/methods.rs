//! Methods: functions defined on a struct or enum that take the instance
//! as their first parameter.

use vstd::prelude::*;

verus! {

/// A rectangle whose area can be asked for.
pub struct Rectangle {
    pub width: u32,
    pub height: u32,
}

impl Rectangle {
    /// The area of the rectangle; the caller guarantees the product fits.
    pub fn area(&self) -> (a: u32)
        requires
            self.width * self.height <= u32::MAX,
        ensures
            a == self.width * self.height,
    {
        self.width * self.height
    }
}

/// A traffic light whose state can be switched to green.
pub struct TrafficLight {
    pub color: String,
}

impl TrafficLight {
    /// Switches the light to green, whatever it showed before.
    pub fn change_state(&mut self)
        ensures
            final(self).color@ == "green"@,
    {
        self.color = String::from_str("green");
    }
}

/// The three states a traffic light can show.
#[derive(Debug)]
pub enum TrafficLightColorEnum {
    Red,
    Yellow,
    Green,
}

/// The text a traffic light color displays as.
pub open spec fn color_text(c: TrafficLightColorEnum) -> Seq<char> {
    match c {
        TrafficLightColorEnum::Red => "red"@,
        TrafficLightColorEnum::Yellow => "yellow"@,
        TrafficLightColorEnum::Green => "green"@,
    }
}

impl TrafficLightColorEnum {
    /// The name of the color, one fixed word per variant.
    pub fn color(&self) -> (name: &str)
        ensures
            name@ == color_text(*self),
    {
        match self {
            Self::Red => "red",
            Self::Yellow => "yellow",
            Self::Green => "green",
        }
    }
}

} // verus!
