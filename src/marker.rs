//! The marker traits and marker types of the crate's own core library.

use vstd::prelude::*;

verus! {

/// Types whose values may be sent to another thread.
pub trait Send {}

/// Types whose references may be shared between threads.
pub trait Sync {}

/// Types that may be moved after being pinned.
pub trait Unpin {}

/// A zero-sized marker that acts as if it owned a `T`.
pub struct PhantomData<T> {
    marker: core::marker::PhantomData<T>,
}

/// A zero-sized marker that makes its owner not `Unpin`.
#[derive(Debug, Clone, Copy, PartialEq, Eq)]
pub struct PhantomPinned;

} // verus!
