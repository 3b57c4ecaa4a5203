use std::collections::VecDeque;
use vstd::prelude::*;

verus! {

/// What `Queue::pop` finds at the head of the queue.
pub enum PopResult<T> {
    /// The oldest element, now removed from the queue.
    Data(T),
    /// The queue holds no element.
    Empty,
    /// A push was observed half-way. A queue owned by one thread at a time
    /// never reports this.
    Inconsistent,
}

/// A first-in first-out queue of messages.
pub struct Queue<T> {
    items: VecDeque<T>,
}

impl<T> View for Queue<T> {
    type V = Seq<T>;

    closed spec fn view(&self) -> Seq<T> {
        self.items@
    }
}

impl<T> Queue<T> {
    /// An empty queue.
    pub fn new() -> (q: Self)
        ensures
            q@ == Seq::<T>::empty(),
    {
        Queue { items: VecDeque::new() }
    }

    /// Appends `t` behind every element already queued.
    pub fn push(&mut self, t: T)
        ensures
            final(self)@ == old(self)@.push(t),
    {
        self.items.push_back(t);
    }

    /// Removes and returns the oldest element, or reports that there is none.
    pub fn pop(&mut self) -> (r: PopResult<T>)
        ensures
            old(self)@.len() == 0 ==> r is Empty && final(self)@ == old(self)@,
            old(self)@.len() > 0 ==> r == PopResult::Data(old(self)@[0])
                && final(self)@ == old(self)@.drop_first(),
    {
        match self.items.pop_front() {
            Some(t) => PopResult::Data(t),
            None => PopResult::Empty,
        }
    }

    /// The number of queued elements.
    pub fn len(&self) -> (n: usize)
        ensures
            n == self@.len(),
    {
        self.items.len()
    }
}

} // verus!
