//! Measurements as the weather service reports them.

use vstd::prelude::*;

verus! {

/// A measurement as the weather service wraps it: the reading sits in a field
/// of its own, next to metadata that the dashboard does not use.
#[derive(Debug)]
pub struct Value<T> {
    pub value: T,
}

impl<T> Value<T> {
    /// Wraps a reading.
    pub fn new(value: T) -> (wrapped: Self)
        ensures
            wrapped.value == value,
    {
        Self { value }
    }
}

} // verus!
