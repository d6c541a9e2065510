//! Unbounded first-in-first-out frame queue.

use std::collections::VecDeque;
use vstd::prelude::*;

verus! {

/// Unbounded first-in-first-out queue that decouples a producer/consumer
/// pair of worker roles.
///
/// The type captures the queue discipline itself: items leave in exactly the
/// order they entered, each exactly once.  Callers that share one queue
/// between threads wrap it in a mutual-exclusion primitive of their own;
/// that serializes the calls, so the sequential contracts below describe
/// every interleaving of pushes and pops.
pub struct WorkQueue<T> {
    items: VecDeque<T>,
}

impl<T> View for WorkQueue<T> {
    type V = Seq<T>;

    closed spec fn view(&self) -> Seq<T> {
        self.items@
    }
}

impl<T> WorkQueue<T> {
    /// Creates an empty queue.
    pub fn new() -> (q: Self)
        ensures
            q@ == Seq::<T>::empty(),
    {
        WorkQueue { items: VecDeque::new() }
    }

    /// Removes and returns the item at the head, or `None` when the queue
    /// is empty.
    pub fn get_work(&mut self) -> (r: Option<T>)
        ensures
            old(self)@.len() == 0 ==> r is None && final(self)@ == old(self)@,
            old(self)@.len() > 0 ==> r == Some(old(self)@[0]) && final(self)@ == old(self)@.drop_first(),
    {
        self.items.pop_front()
    }

    /// Appends an item at the tail and returns the resulting length.
    pub fn add_work(&mut self, work: T) -> (n: usize)
        ensures
            final(self)@ == old(self)@.push(work),
            n == final(self)@.len(),
    {
        self.items.push_back(work);
        self.items.len()
    }
}

} // verus!
