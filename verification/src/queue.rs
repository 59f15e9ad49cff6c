//! The bounded queue that decouples producers from consumers.

use vstd::prelude::*;

verus! {

/// Every queue of the pipeline holds at most this many packets per
/// direction.
pub const QUEUE_CAPACITY: usize = 1000;

/// A bounded first-in-first-out queue with a closable producer side.
///
/// `try_send` is the best-effort enqueue the loopback injection paths use: a
/// full or closed queue drops the packet instead of blocking the caller.
/// `recv` pops the oldest element; a queue stays drainable after its
/// producer side is closed, and reports only emptiness once drained.
pub struct PacketQueue<T> {
    /// The queued elements, oldest first.
    pub items: Vec<T>,
    /// Whether the producer side is still open; closing it is one-way.
    pub accepting: bool,
}

impl<T> PacketQueue<T> {
    /// An empty queue whose producer side is open.
    pub fn new() -> (q: PacketQueue<T>)
        ensures
            q.items@ == Seq::<T>::empty(),
            q.accepting,
    {
        PacketQueue { items: Vec::new(), accepting: true }
    }

    /// Best-effort enqueue: appends `x` and reports success when the queue
    /// is open and under capacity, and otherwise drops `x` and leaves the
    /// queue as it was.
    pub fn try_send(&mut self, x: T) -> (ok: bool)
        ensures
            if old(self).accepting && old(self).items@.len() < QUEUE_CAPACITY {
                ok && final(self).items@ == old(self).items@.push(x) && final(self).accepting
            } else {
                !ok && *final(self) == *old(self)
            },
    {
        if self.accepting && self.items.len() < QUEUE_CAPACITY {
            self.items.push(x);
            true
        } else {
            false
        }
    }

    /// Pops the oldest element, or reports emptiness.
    pub fn recv(&mut self) -> (r: Option<T>)
        ensures
            match r {
                Some(x) => {
                    &&& old(self).items@.len() > 0
                    &&& x == old(self).items@[0]
                    &&& final(self).items@ == old(self).items@.drop_first()
                    &&& final(self).accepting == old(self).accepting
                },
                None => old(self).items@.len() == 0 && *final(self) == *old(self),
            },
    {
        if self.items.len() > 0 {
            let x = self.items.remove(0);
            proof {
                assert(self.items@ == old(self).items@.drop_first());
            }
            Some(x)
        } else {
            None
        }
    }

    /// Closes the producer side; the queued elements stay drainable.
    pub fn close_producer(&mut self)
        ensures
            !final(self).accepting,
            final(self).items@ == old(self).items@,
    {
        self.accepting = false;
    }

    /// How many elements are queued.
    pub fn len(&self) -> (n: usize)
        ensures
            n == self.items@.len(),
    {
        self.items.len()
    }

    /// Whether the producer side is still open.
    pub fn is_accepting(&self) -> (r: bool)
        ensures
            r == self.accepting,
    {
        self.accepting
    }
}

} // verus!
