//! Parity queries over types that carry a numeric value.

use vstd::prelude::*;

verus! {

/// Parity of the numeric value a type wraps.
///
/// An implementor says through `value` which number it stands for;
/// `is_even` and `is_odd` then answer for that number, and are always
/// each other's negation.
pub trait EvenOdd {
    /// The number whose parity is asked about.
    spec fn value(&self) -> int;

    /// True exactly when the value is even.
    fn is_even(&self) -> (r: bool)
        ensures
            r == (self.value() % 2 == 0),
    ;

    /// True exactly when the value is odd.
    fn is_odd(&self) -> (r: bool)
        ensures
            r == (self.value() % 2 != 0),
    ;
}

} // verus!
