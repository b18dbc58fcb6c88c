//! What laws about operations speak of.

use vstd::prelude::*;

verus! {

/// A value that an operation changes: `*on` is the value before the operation, and
/// `*final(on)` is the one after it.
pub struct Subject<'a, T> {
    pub on: &'a mut T,
}

} // verus!
