use std::collections::VecDeque;
use vstd::prelude::*;

verus! {

/// Items pushed in turn onto a queue with room for them come out in the
/// order they were pushed.
pub proof fn lemma_fifo_order<T>(q: Seq<T>, a: T, b: T)
    ensures
        q.push(a).push(b).drop_first().len() == q.len() + 1,
        q.len() == 0 ==> q.push(a).push(b)[0] == a && q.push(a).push(b).drop_first()[0] == b,
        q.push(a).push(b).skip(q.len() as int) == seq![a, b],
{
    assert(q.push(a).push(b).skip(q.len() as int) =~= seq![a, b]);
}

/// A bounded first-in first-out queue of ready items.
pub struct ReadyQueue<T> {
    items: VecDeque<T>,
    capacity: usize,
}

/// Returned by [`ReadyQueue::push`] when the queue is full; it hands the
/// rejected item back so that nothing is lost.
pub struct QueueFull<T> {
    pub item: T,
}

impl<T> ReadyQueue<T> {
    pub closed spec fn view(&self) -> Seq<T> {
        self.items@
    }

    pub closed spec fn spec_capacity(&self) -> nat {
        self.capacity as nat
    }

    /// An empty queue that holds at most `capacity` items.
    pub fn new(capacity: usize) -> (r: Self)
        ensures
            r@ == Seq::<T>::empty(),
            r.spec_capacity() == capacity,
    {
        ReadyQueue { items: VecDeque::new(), capacity }
    }

    pub fn len(&self) -> (r: usize)
        ensures
            r == self@.len(),
    {
        self.items.len()
    }

    pub fn capacity(&self) -> (r: usize)
        ensures
            r == self.spec_capacity(),
    {
        self.capacity
    }

    pub fn is_empty(&self) -> (r: bool)
        ensures
            r == (self@.len() == 0),
    {
        self.items.len() == 0
    }

    pub fn is_full(&self) -> (r: bool)
        ensures
            r == (self@.len() >= self.spec_capacity()),
    {
        self.items.len() >= self.capacity
    }

    /// Appends `item` at the back, or hands it back when the queue is full.
    pub fn push(&mut self, item: T) -> (r: Result<(), QueueFull<T>>)
        ensures
            final(self).spec_capacity() == old(self).spec_capacity(),
            old(self)@.len() < old(self).spec_capacity() ==> r is Ok && final(self)@ == old(self)@.push(item),
            old(self)@.len() >= old(self).spec_capacity() ==> (r matches Err(e) && e.item == item) && final(self)@ == old(self)@,
    {
        if self.items.len() >= self.capacity {
            Err(QueueFull { item })
        } else {
            self.items.push_back(item);
            Ok(())
        }
    }

    /// Appends `item` at the back even past the capacity. This is the path for
    /// waking a task that is already in the system: it never blocks and never
    /// refuses, so a waker running on the reactor's thread cannot stall it.
    pub fn push_unbounded(&mut self, item: T)
        ensures
            final(self).spec_capacity() == old(self).spec_capacity(),
            final(self)@ == old(self)@.push(item),
    {
        self.items.push_back(item);
    }

    /// Removes and returns the item at the front.
    pub fn pop(&mut self) -> (r: Option<T>)
        ensures
            final(self).spec_capacity() == old(self).spec_capacity(),
            old(self)@.len() == 0 ==> r is None && final(self)@ == old(self)@,
            old(self)@.len() > 0 ==> r == Some(old(self)@[0]) && final(self)@ == old(self)@.drop_first(),
    {
        self.items.pop_front()
    }
}

} // verus!
