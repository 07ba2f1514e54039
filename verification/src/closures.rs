//! Closures: anonymous functions that capture from their surroundings, and
//! the higher-order functions that take and return them; contracts flow
//! through `call_requires` and `call_ensures`.

use vstd::prelude::*;

verus! {

/// A closure captures a variable from its scope and uses it in its result.
pub fn example_closures_01() {
    let x: i32 = 1;

    let closure = |val: i32| -> (r: i32)
        requires
            val < i32::MAX,
        ensures
            r == val + 1,
        { val + x };
    let res = closure(2);
    assert(res == 3);
}

/// Borrows a value without doing anything with it.
pub fn take<T>(_v: &T) {
}

/// An identity closure keeps whatever it is given, for one element type.
pub fn example_closures_03() {
    let example_closure = |x: String| -> (r: String)
        ensures
            r == x,
        { x };

    let s = example_closure(String::from_str("hello"));
    assert(s@ == "hello"@);

    let n = example_closure(String::from_str("5"));
    assert(n@ == "5"@);
}

/// Calls the given predicate on 3 and on 4 and reports both answers.
pub fn fn_once_caller<F>(func: F) -> (r: (bool, bool)) where F: Fn(usize) -> bool
    requires
        call_requires(func, (3usize,)),
        call_requires(func, (4usize,)),
    ensures
        call_ensures(func, (3usize,), r.0),
        call_ensures(func, (4usize,), r.1),
{
    let first = func(3);
    let second = func(4);
    (first, second)
}

/// A closure that compares its argument against a captured vector's length.
pub fn example_closures_04() {
    let x: Vec<i32> = vec![1, 2, 3];
    let ghost xlen = x@.len();
    let compare = |z: usize| -> (b: bool)
        ensures
            b == (z == xlen),
        {
            z == x.len()
        };
    let (on_three, on_four) = fn_once_caller(compare);
    assert(on_three);
    assert(!on_four);
}

/// Applies the function to 3 and hands back whatever it returned.
pub fn apply<F>(f: F) -> (r: i32) where F: Fn(i32) -> i32
    requires
        call_requires(f, (3i32,)),
    ensures
        call_ensures(f, (3i32,), r),
{
    f(3)
}

/// Calls a function of no arguments once, consuming it.
pub fn apply_1<F>(f: F) where F: FnOnce()
    requires
        call_requires(f, ()),
{
    f();
}

/// Applies the function to 3; same shape as `apply`, named for its input.
pub fn apply_to_3<F>(f: F) -> (r: i32) where F: Fn(i32) -> i32
    requires
        call_requires(f, (3i32,)),
    ensures
        call_ensures(f, (3i32,), r),
{
    f(3)
}

/// Doubling 3 through `apply_to_3` gives 6.
pub fn example_closures_06() {
    let double = |x: i32| -> (r: i32)
        requires
            i32::MIN <= 2 * x <= i32::MAX,
        ensures
            r == 2 * x,
        { 2 * x };
    let doubled = apply_to_3(double);
    assert(doubled == 6);
}

/// Calls any callable of no arguments.
pub fn call_me<F>(f: F) where F: Fn()
    requires
        call_requires(f, ()),
{
    f();
}

/// Both a closure and a named function can be handed to `call_me`.
pub fn example_closures_08() {
    let closure = || {
    };
    call_me(closure);
    call_me(take_no_args);
}

/// A named function of no arguments, passable as a value.
pub fn take_no_args() {
}

/// Builds a closure that captures a fixed offset by move and adds it.
pub fn create_fn() -> (f: impl Fn(i32) -> i32)
    ensures
        forall|x: i32| x <= i32::MAX - 5 ==> call_requires(f, (x,)),
        forall|x: i32, y: i32| call_ensures(f, (x,), y) ==> y == x + 5,
{
    let num: i32 = 5;

    (move |x: i32| -> (r: i32)
        requires
            x + num <= i32::MAX,
        ensures
            r == x + num,
        { x + num })
}

/// A returned closure is called like any function; the offset it captured
/// is still in force.
pub fn example_closures_09() {
    let fn_plain = create_fn();
    let r = fn_plain(1);
    assert(r == 6);
}

} // verus!
