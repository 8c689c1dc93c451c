//! The bounded queue behind the callback dispatcher: callbacks run one at a
//! time in submission order on a single worker, so a callback may re-enter
//! the library without deadlocking against the task that raised the event.
//! Submitting never blocks: when the queue is full the oldest queued
//! callback is dropped to make room for the new one.

use vstd::prelude::*;
use std::collections::VecDeque;

verus! {

/// The queue size used when none is given.
pub const DEFAULT_DISPATCH_BUFFER: usize = 256;

/// The queue after submitting `task` to a queue holding `q` with room for
/// `capacity` tasks: a closed queue drops the task; a full one drops its
/// oldest task first.
pub open spec fn after_submit<T>(q: Seq<T>, capacity: nat, closed: bool, task: T) -> Seq<T> {
    if closed {
        q
    } else if q.len() >= capacity {
        q.drop_first().push(task)
    } else {
        q.push(task)
    }
}

/// A bounded first-in first-out queue of pending callbacks.
pub struct DispatchQueue<T> {
    items: VecDeque<T>,
    capacity: usize,
    closed: bool,
}

impl<T> View for DispatchQueue<T> {
    type V = Seq<T>;

    closed spec fn view(&self) -> Seq<T> {
        self.items@
    }
}

impl<T> DispatchQueue<T> {
    #[verifier::type_invariant]
    spec fn bounded(&self) -> bool {
        &&& 0 < self.capacity
        &&& self.items@.len() <= self.capacity
    }

    /// How many callbacks the queue holds at most.
    pub closed spec fn spec_capacity(&self) -> nat {
        self.capacity as nat
    }

    /// Whether the queue was closed.
    pub closed spec fn spec_closed(&self) -> bool {
        self.closed
    }

    /// An empty, open queue holding at most `buf_size` callbacks; zero
    /// means 256.
    pub fn new(buf_size: usize) -> (out: DispatchQueue<T>)
        ensures
            out@ == Seq::<T>::empty(),
            out.spec_capacity() == (if buf_size == 0 { DEFAULT_DISPATCH_BUFFER } else { buf_size }),
            !out.spec_closed(),
    {
        let capacity = if buf_size == 0 { DEFAULT_DISPATCH_BUFFER } else { buf_size };
        DispatchQueue { items: VecDeque::new(), capacity, closed: false }
    }

    /// How many callbacks are waiting.
    pub fn len(&self) -> (out: usize)
        ensures
            out == self@.len(),
            out <= self.spec_capacity(),
    {
        proof {
            use_type_invariant(self);
        }
        self.items.len()
    }

    /// Whether the queue was closed.
    pub fn is_closed(&self) -> (out: bool)
        ensures
            out == self.spec_closed(),
    {
        self.closed
    }

    /// Enqueues a callback without blocking; tells whether it was taken
    /// (a closed queue drops it). A full queue drops its oldest callback.
    pub fn submit(&mut self, task: T) -> (accepted: bool)
        ensures
            accepted == !old(self).spec_closed(),
            final(self)@ == after_submit(old(self)@, old(self).spec_capacity(), old(self).spec_closed(), task),
            final(self).spec_capacity() == old(self).spec_capacity(),
            final(self).spec_closed() == old(self).spec_closed(),
            final(self)@.len() <= final(self).spec_capacity(),
    {
        proof {
            use_type_invariant(&*self);
        }
        if self.closed {
            return false;
        }
        let mut items: VecDeque<T> = VecDeque::new();
        std::mem::swap(&mut items, &mut self.items);
        if items.len() >= self.capacity {
            let _oldest = items.pop_front();
        }
        items.push_back(task);
        proof {
            if old(self)@.len() >= self.capacity {
                assert(items@ =~= old(self)@.drop_first().push(task));
            }
        }
        self.items = items;
        true
    }

    /// Takes the oldest waiting callback, if any.
    pub fn pop(&mut self) -> (out: Option<T>)
        ensures
            old(self)@.len() == 0 ==> out is None && final(self)@ == old(self)@,
            old(self)@.len() > 0 ==> out == Some(old(self)@[0]) && final(self)@ == old(self)@.drop_first(),
            final(self).spec_capacity() == old(self).spec_capacity(),
            final(self).spec_closed() == old(self).spec_closed(),
    {
        proof {
            use_type_invariant(&*self);
        }
        let mut items: VecDeque<T> = VecDeque::new();
        std::mem::swap(&mut items, &mut self.items);
        let out = items.pop_front();
        proof {
            if old(self)@.len() > 0 {
                assert(items@ =~= old(self)@.drop_first());
            }
        }
        self.items = items;
        out
    }

    /// Closes the queue: later submissions are dropped. Waiting callbacks
    /// stay to be taken.
    pub fn close(&mut self)
        ensures
            final(self).spec_closed(),
            final(self)@ == old(self)@,
            final(self).spec_capacity() == old(self).spec_capacity(),
    {
        proof {
            use_type_invariant(&*self);
        }
        self.closed = true;
    }
}

/// Submitting to an open queue never loses the newest callback, keeps the
/// queue within its bound, and keeps the order of the others: the queue
/// is a suffix of what it held followed by the new callback.
pub proof fn lemma_submit_keeps_newest<T>(q: Seq<T>, capacity: nat, task: T)
    requires
        0 < capacity,
        q.len() <= capacity,
    ensures
        ({
            let r = after_submit(q, capacity, false, task);
            &&& r.len() <= capacity
            &&& r.len() > 0 && r.last() == task
            &&& r.drop_last() =~= q.subrange(q.len() - (r.len() - 1), q.len() as int)
        }),
{
}

} // verus!
