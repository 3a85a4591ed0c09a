//! A wrapper that keeps its value from being dropped, as the crate's own core library
//! declares it.

use vstd::prelude::*;

use crate::ops::{Deref, DerefMut};

verus! {

/// Holds a value whose destructor is not run automatically.
pub struct ManuallyDrop<T> {
    value: T,
}

impl<T> ManuallyDrop<T> {
    pub closed spec fn inner(&self) -> T {
        self.value
    }

    /// Wraps `value`.
    pub fn new(value: T) -> (r: Self)
        ensures
            r.inner() == value,
    {
        ManuallyDrop { value }
    }

    /// Unwraps the value.
    pub fn into_inner(self) -> (r: T)
        ensures
            r == self.inner(),
    {
        self.value
    }
}

impl<T> Deref for ManuallyDrop<T> {
    type Target = T;

    fn deref(&self) -> &T {
        &self.value
    }
}

impl<T> DerefMut for ManuallyDrop<T> {
    fn deref_mut(&mut self) -> &mut T {
        &mut self.value
    }
}

} // verus!
