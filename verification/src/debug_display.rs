//! Printable types: wrappers whose held value can be read back exactly;
//! how they are formatted is the caller's business.

use vstd::prelude::*;

verus! {

/// A wrapper that exposes nothing about how to print it.
pub struct UnPrintable(pub i32);

/// A wrapper that derives its debug formatting.
#[derive(Debug)]
pub struct DebugPrintable(pub i32);

/// Wraps a value both ways and reads it back unchanged.
pub fn example_debug_01() {
    let plain = UnPrintable(3);
    let printable = DebugPrintable(3);

    assert(plain.0 == printable.0);
}

} // verus!
