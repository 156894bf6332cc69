//! Role-tagged queue-family indices.
//!
//! A queue-family index is a plain integer; the phantom role parameter keeps
//! a graphics index from being confused with a presentation index at compile
//! time.

use core::marker::PhantomData;
use vstd::prelude::*;

verus! {

/// Role tag: a queue family selected for graphics work.
pub struct Graphics;

/// Role tag: a queue family selected for presentation.
pub struct Presentation;

/// A queue-family index tagged with the role it was selected for.
pub struct QueueFamilyIndex<T> {
    raw_index: u32,
    phantom: PhantomData<T>,
}

impl<T> QueueFamilyIndex<T> {
    /// The raw index, for contracts.
    pub closed spec fn index(self) -> u32 {
        self.raw_index
    }

    /// Wrap a raw index under the role tag.
    pub fn new(raw_index: u32) -> (r: Self)
        ensures
            r.index() == raw_index,
    {
        QueueFamilyIndex { raw_index, phantom: PhantomData }
    }

    /// The raw index.
    pub fn raw(&self) -> (r: u32)
        ensures
            r == self.index(),
    {
        self.raw_index
    }
}

impl<T> Clone for QueueFamilyIndex<T> {
    fn clone(&self) -> (r: Self)
        ensures
            r.index() == self.index(),
    {
        QueueFamilyIndex { raw_index: self.raw_index, phantom: PhantomData }
    }
}

} // verus!
