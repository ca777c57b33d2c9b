//! The two ends of a single-producer, single-consumer queue over a shared
//! buffer with a read and a write position.

use vstd::prelude::*;

use std::sync::Arc;

verus! {

/// The buffer the two ends share.
struct Buf<T> {
    data: Vec<T>,
    read: usize,
    write: usize,
}

/// The producing end.
pub struct Producer<T> {
    buf: Arc<Buf<T>>,
}

impl<T> Producer<T> {
    /// Offers a value to the queue. Nothing is stored: the value is dropped
    /// and the producer is left as it was.
    pub fn push(&mut self, value: T)
        ensures
            *final(self) == *old(self),
    {
    }
}

/// The consuming end.
pub struct Consumer<T> {
    buf: Arc<Buf<T>>,
}

} // verus!
