//! Enums: a type that is exactly one of a set of variants, each of which
//! may carry data of its own.

use vstd::prelude::*;

verus! {

/// An internet address, either of the old or of the new kind.
pub enum IpAddr {
    V4(String),
    V6(String),
}

/// Builds one address of each kind and checks which variant each one is.
pub fn enum_test() {
    let home = IpAddr::V4(String::from_str("127.0.0.1"));
    let loopback = IpAddr::V6(String::from_str("::1"));

    assert(home is V4);
    assert(loopback is V6);
}

/// A message of one of four shapes, from a unit variant to named fields.
pub enum Message {
    Quit,
    Move { x: i32, y: i32 },
    Write(String),
    ChangeColor(i32, i32, i32),
}

/// The coordinates carried by a `Move` message, if the message is one.
pub fn move_coordinates(m: &Message) -> (r: Option<(i32, i32)>)
    ensures
        m matches Message::Move { x, y } ==> r == Some((*x, *y)),
        !(m is Move) ==> r == None::<(i32, i32)>,
{
    match m {
        Message::Move { x, y } => Some((*x, *y)),
        _ => None,
    }
}

/// Builds one message of each shape and destructures the `Move` one.
pub fn enum_test2() {
    let m = Message::Move { x: 10, y: 20 };
    let m1 = Message::Write(String::from_str("Hello"));
    let m2 = Message::ChangeColor(255, 255, 255);
    let m3 = Message::Quit;

    assert(m1 is Write && m2 is ChangeColor && m3 is Quit);

    let coords = move_coordinates(&m);
    assert(coords == Some((10i32, 20i32)));
}

} // verus!
