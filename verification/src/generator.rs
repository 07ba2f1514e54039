//! A lazy sequence generator for two-term linear recurrences.
//!
//! A `Generator` holds the two most recent terms of the recurrence and
//! produces one value per call, on demand, without an upper bound.  The
//! arithmetic is checked: advancing past the numeric width fails loudly
//! with [`Overflow`] instead of wrapping.

use vstd::prelude::*;

verus! {

/// Signals that advancing the generator would exceed `u64::MAX`.
#[derive(Clone, Copy, Debug, PartialEq, Eq, Structural)]
pub struct Overflow;

/// Produces successive values of the recurrence `successor = current + next`,
/// one value per `produce_next` call.  Seeded with `(0, 1)` it yields the
/// classic Fibonacci sequence `1, 1, 2, 3, 5, ...`.
pub struct Generator {
    current: u64,
    next: u64,
}

/// One advance of the recurrence state: the old `next` becomes `current`,
/// and the new `next` is the sum of the two old terms.
pub open spec fn gen_step(s: (nat, nat)) -> (nat, nat) {
    (s.1, (s.0 + s.1) as nat)
}

/// The state a generator seeded with `s` holds after `k` produce calls.
pub open spec fn gen_advanced(s: (nat, nat), k: nat) -> (nat, nat)
    decreases k,
{
    if k == 0 {
        s
    } else {
        gen_step(gen_advanced(s, (k - 1) as nat))
    }
}

/// The value returned by the `k`-th produce call (1-indexed) of a generator
/// seeded with `s`: the `current` term after `k` advances.
pub open spec fn gen_value(s: (nat, nat), k: nat) -> nat
    recommends
        1 <= k,
{
    gen_advanced(s, k).0
}

/// The classic Fibonacci numbers: 0, 1, 1, 2, 3, 5, 8, 13, ...
pub open spec fn fib(n: nat) -> nat
    decreases n,
{
    if n == 0 {
        0
    } else if n == 1 {
        1
    } else {
        fib((n - 2) as nat) + fib((n - 1) as nat)
    }
}

impl View for Generator {
    type V = (nat, nat);

    closed spec fn view(&self) -> (nat, nat) {
        (self.current as nat, self.next as nat)
    }
}

impl Generator {
    /// Creates a generator from explicit seed values.
    pub fn new(current: u64, next: u64) -> (g: Self)
        ensures
            g@ == (current as nat, next as nat),
    {
        Generator { current, next }
    }

    /// The canonical Fibonacci seeding `(current = 0, next = 1)`.
    pub fn fibonacci() -> (g: Self)
        ensures
            g@ == (0nat, 1nat),
    {
        Generator { current: 0, next: 1 }
    }

    /// The current term: equal to the most recently produced value once at
    /// least one value has been produced.
    pub fn current(&self) -> (c: u64)
        ensures
            c == self@.0,
    {
        self.current
    }

    /// The term the next successful `produce_next` call will return.
    pub fn peek_next(&self) -> (n: u64)
        ensures
            n == self@.1,
    {
        self.next
    }

    /// Advances the recurrence once and returns the new `current` term.
    ///
    /// Succeeds exactly when the successor `current + next` fits the numeric
    /// width; on overflow it returns `Err(Overflow)` and leaves the state
    /// untouched, so a wrapped value can never be mistaken for a real term.
    pub fn produce_next(&mut self) -> (r: Result<u64, Overflow>)
        ensures
            old(self)@.0 + old(self)@.1 <= u64::MAX ==> {
                &&& r == Ok::<u64, Overflow>((old(self)@.1) as u64)
                &&& final(self)@ == gen_step(old(self)@)
            },
            old(self)@.0 + old(self)@.1 > u64::MAX ==> {
                &&& r == Err::<u64, Overflow>(Overflow)
                &&& final(self)@ == old(self)@
            },
    {
        match self.current.checked_add(self.next) {
            Some(successor) => {
                self.current = self.next;
                self.next = successor;
                Ok(self.current)
            },
            None => Err(Overflow),
        }
    }
}

/// Determinism: two generators seeded identically and advanced the same
/// number of times reach the same state and produce the same values.
pub proof fn lemma_deterministic(a: (nat, nat), b: (nat, nat), k: nat)
    requires
        a == b,
    ensures
        gen_advanced(a, k) == gen_advanced(b, k),
        1 <= k ==> gen_value(a, k) == gen_value(b, k),
{
}

/// After at least one advance, the `next` term is at least the `current`
/// term, because the successor adds a non-negative value.
proof fn lemma_next_at_least_current(s: (nat, nat), k: nat)
    requires
        1 <= k,
    ensures
        gen_advanced(s, k).1 >= gen_advanced(s, k).0,
{
}

/// Monotonicity: each produced value is at least the one produced before it.
pub proof fn lemma_monotonic(s: (nat, nat), k: nat)
    requires
        1 <= k,
    ensures
        gen_value(s, (k + 1) as nat) >= gen_value(s, k),
{
    lemma_next_at_least_current(s, k);
}

/// A generator seeded with `(0, 1)` tracks the Fibonacci numbers: after `k`
/// advances its state is `(fib(k), fib(k + 1))`.
pub proof fn lemma_fibonacci_state(k: nat)
    ensures
        gen_advanced((0nat, 1nat), k) == (fib(k), fib((k + 1) as nat)),
    decreases k,
{
    if k > 0 {
        lemma_fibonacci_state((k - 1) as nat);
    }
}

/// Seeded with `(0, 1)`, the `k`-th produce call returns the `k`-th
/// Fibonacci number: 1, 1, 2, 3, 5, 8, 13, ...
pub proof fn lemma_fibonacci_value(k: nat)
    requires
        1 <= k,
    ensures
        gen_value((0nat, 1nat), k) == fib(k),
{
    lemma_fibonacci_state(k);
}

} // verus!
