//! The bounded drop-oldest queue that buffers commands on their way to the
//! server and events on their way to the application.
//!
//! When the queue is full, a push evicts the oldest item, so a slow consumer
//! never holds up a producer; the number of evicted items is counted. The
//! queue also counts the items that are still pending: enqueued and neither
//! evicted nor reported processed by the consumer.

use std::collections::VecDeque;
use vstd::prelude::*;

verus! {

/// The contents after one push onto a queue of capacity `cap`: the item is
/// appended and, when the queue was full, the oldest item leaves.
pub open spec fn push_one<T>(items: Seq<T>, cap: nat, x: T) -> Seq<T> {
    if items.len() >= cap {
        items.drop_first().push(x)
    } else {
        items.push(x)
    }
}

/// The contents after pushing every item of `xs`, in order.
pub open spec fn push_all<T>(items: Seq<T>, cap: nat, xs: Seq<T>) -> Seq<T>
    decreases xs.len(),
{
    if xs.len() == 0 {
        items
    } else {
        push_one(push_all(items, cap, xs.drop_last()), cap, xs.last())
    }
}

/// How many items pushing every item of `xs` evicts.
pub open spec fn evictions<T>(items: Seq<T>, cap: nat, xs: Seq<T>) -> nat
    decreases xs.len(),
{
    if xs.len() == 0 {
        0
    } else {
        let before = push_all(items, cap, xs.drop_last());
        evictions(items, cap, xs.drop_last()) + if before.len() >= cap {
            1nat
        } else {
            0nat
        }
    }
}

/// Why a receive found no item.
#[derive(Debug, Clone, Copy, PartialEq, Eq)]
pub enum QueueRecvError {
    /// The queue is empty and a producer may still push.
    Empty,
    /// The queue is empty and every producer is gone.
    Disconnected,
}

/// Two counts agree modulo 2^64: one kept in a `u64` that wraps, the other
/// as an unbounded number.
pub open spec fn agrees_mod_u64(counter: u64, count: int) -> bool {
    (count - counter as int) % 0x1_0000_0000_0000_0000 == 0
}

/// A bounded first-in first-out queue that evicts its oldest item when a
/// push finds it full.
pub struct DropOldestQueue<T> {
    items: VecDeque<T>,
    capacity: usize,
    dropped: u64,
    pending: u64,
    senders: usize,
    pushed: Ghost<nat>,
    evicted: Ghost<nat>,
    processed: Ghost<nat>,
}

impl<T> DropOldestQueue<T> {
    /// The items in the queue, oldest first.
    pub closed spec fn contents(&self) -> Seq<T> {
        self.items@
    }

    /// The most items the queue holds.
    pub closed spec fn capacity(&self) -> nat {
        self.capacity as nat
    }

    /// The evicted-item counter.
    pub closed spec fn dropped(&self) -> u64 {
        self.dropped
    }

    /// The pending-item counter.
    pub closed spec fn pending(&self) -> u64 {
        self.pending
    }

    /// The number of live producers.
    pub closed spec fn senders(&self) -> nat {
        self.senders as nat
    }

    /// How many items were ever pushed.
    pub closed spec fn pushed(&self) -> nat {
        self.pushed@
    }

    /// How many items were ever evicted.
    pub closed spec fn evicted(&self) -> nat {
        self.evicted@
    }

    /// How many times the consumer reported an item processed.
    pub closed spec fn processed(&self) -> nat {
        self.processed@
    }

    /// The items pushed and neither evicted nor reported processed.
    pub open spec fn outstanding(&self) -> int {
        self.pushed() - self.evicted() - self.processed()
    }

    /// The queue holds at most `capacity` items and the capacity is
    /// positive; the dropped and pending counters are the evicted and
    /// outstanding counts, modulo 2^64.
    pub closed spec fn wf(&self) -> bool {
        &&& 0 < self.capacity
        &&& self.items@.len() <= self.capacity
        &&& agrees_mod_u64(self.dropped, self.evicted@ as int)
        &&& agrees_mod_u64(self.pending, self.outstanding())
    }

    /// An empty queue of the given capacity, with one producer.
    pub fn new(capacity: usize) -> (q: Self)
        requires
            capacity > 0,
        ensures
            q.wf(),
            q.contents() == Seq::<T>::empty(),
            q.capacity() == capacity,
            q.dropped() == 0,
            q.pending() == 0,
            q.senders() == 1,
            q.pushed() == 0,
            q.evicted() == 0,
            q.processed() == 0,
    {
        DropOldestQueue {
            items: VecDeque::new(),
            capacity,
            dropped: 0,
            pending: 0,
            senders: 1,
            pushed: Ghost(0),
            evicted: Ghost(0),
            processed: Ghost(0),
        }
    }

    /// Appends `item`; when the queue is full the oldest item is evicted,
    /// counted as dropped and no longer pending, and handed back.
    pub fn push(&mut self, item: T) -> (evicted: Option<T>)
        requires
            old(self).wf(),
        ensures
            final(self).wf(),
            final(self).capacity() == old(self).capacity(),
            final(self).senders() == old(self).senders(),
            final(self).contents() == push_one(old(self).contents(), old(self).capacity(), item),
            final(self).pushed() == old(self).pushed() + 1,
            final(self).processed() == old(self).processed(),
            final(self).evicted() == old(self).evicted() + if old(self).contents().len()
                >= old(self).capacity() {
                1nat
            } else {
                0nat
            },
            old(self).contents().len() >= old(self).capacity() ==> {
                &&& evicted == Some(old(self).contents()[0])
                &&& final(self).dropped() == vstd::wrapping::u64_specs::wrapping_add(
                    old(self).dropped(),
                    1,
                )
                &&& final(self).pending() == old(self).pending()
            },
            old(self).pending() == old(self).contents().len() ==> final(self).pending()
                == final(self).contents().len(),
            old(self).contents().len() < old(self).capacity() ==> {
                &&& evicted is None
                &&& final(self).dropped() == old(self).dropped()
                &&& final(self).pending() == vstd::wrapping::u64_specs::wrapping_add(
                    old(self).pending(),
                    1,
                )
            },
    {
        let mut evicted = None;
        if self.items.len() >= self.capacity {
            evicted = self.items.pop_front();
            self.dropped = self.dropped.wrapping_add(1);
            self.pending = self.pending.wrapping_sub(1);
            self.evicted = Ghost(self.evicted@ + 1);
        }
        self.items.push_back(item);
        self.pending = self.pending.wrapping_add(1);
        self.pushed = Ghost(self.pushed@ + 1);
        proof {
            let p = old(self).pending();
            assert(vstd::wrapping::u64_specs::wrapping_add(
                vstd::wrapping::u64_specs::wrapping_sub(p, 1),
                1,
            ) == p);
        }
        assert(self.items@ =~= push_one(old(self).contents(), old(self).capacity(), item));
        evicted
    }

    /// Takes the oldest item; with none, says whether a producer is left.
    pub fn try_recv(&mut self) -> (r: Result<T, QueueRecvError>)
        requires
            old(self).wf(),
        ensures
            final(self).wf(),
            final(self).capacity() == old(self).capacity(),
            final(self).dropped() == old(self).dropped(),
            final(self).pending() == old(self).pending(),
            final(self).senders() == old(self).senders(),
            final(self).pushed() == old(self).pushed(),
            final(self).evicted() == old(self).evicted(),
            final(self).processed() == old(self).processed(),
            old(self).contents().len() > 0 ==> {
                &&& r == Ok::<T, QueueRecvError>(old(self).contents()[0])
                &&& final(self).contents() == old(self).contents().drop_first()
            },
            old(self).contents().len() == 0 ==> {
                &&& final(self).contents() == old(self).contents()
                &&& r == Err::<T, QueueRecvError>(
                    if old(self).senders() == 0 {
                        QueueRecvError::Disconnected
                    } else {
                        QueueRecvError::Empty
                    },
                )
            },
    {
        match self.items.pop_front() {
            Some(x) => {
                assert(self.items@ =~= old(self).contents().drop_first());
                Ok(x)
            },
            None => {
                if self.senders == 0 {
                    Err(QueueRecvError::Disconnected)
                } else {
                    Err(QueueRecvError::Empty)
                }
            },
        }
    }

    /// Records that the consumer finished with one item it received.
    pub fn processed_one(&mut self)
        requires
            old(self).wf(),
        ensures
            final(self).wf(),
            final(self).contents() == old(self).contents(),
            final(self).capacity() == old(self).capacity(),
            final(self).dropped() == old(self).dropped(),
            final(self).senders() == old(self).senders(),
            final(self).pending() == vstd::wrapping::u64_specs::wrapping_sub(old(self).pending(), 1),
            final(self).pushed() == old(self).pushed(),
            final(self).evicted() == old(self).evicted(),
            final(self).processed() == old(self).processed() + 1,
    {
        self.pending = self.pending.wrapping_sub(1);
        self.processed = Ghost(self.processed@ + 1);
    }

    /// Registers one more producer.
    pub fn add_sender(&mut self)
        requires
            old(self).wf(),
            old(self).senders() < usize::MAX,
        ensures
            final(self).wf(),
            final(self).contents() == old(self).contents(),
            final(self).capacity() == old(self).capacity(),
            final(self).dropped() == old(self).dropped(),
            final(self).pending() == old(self).pending(),
            final(self).senders() == old(self).senders() + 1,
            final(self).pushed() == old(self).pushed(),
            final(self).evicted() == old(self).evicted(),
            final(self).processed() == old(self).processed(),
    {
        self.senders = self.senders + 1;
    }

    /// Registers that a producer is gone.
    pub fn remove_sender(&mut self)
        requires
            old(self).wf(),
            old(self).senders() > 0,
        ensures
            final(self).wf(),
            final(self).contents() == old(self).contents(),
            final(self).capacity() == old(self).capacity(),
            final(self).dropped() == old(self).dropped(),
            final(self).pending() == old(self).pending(),
            final(self).senders() == old(self).senders() - 1,
            final(self).pushed() == old(self).pushed(),
            final(self).evicted() == old(self).evicted(),
            final(self).processed() == old(self).processed(),
    {
        self.senders = self.senders - 1;
    }

    pub fn dropped_count(&self) -> (r: u64)
        ensures
            r == self.dropped(),
    {
        self.dropped
    }

    pub fn pending_count(&self) -> (r: u64)
        ensures
            r == self.pending(),
    {
        self.pending
    }

    pub fn len(&self) -> (r: usize)
        requires
            self.wf(),
        ensures
            r == self.contents().len(),
    {
        self.items.len()
    }

    /// The number of live producers.
    pub fn sender_count(&self) -> (r: usize)
        ensures
            r == self.senders(),
    {
        self.senders
    }

    /// Every item pushed was evicted or reported processed: the pending
    /// count is zero. A producer waiting for its items to settle waits for
    /// exactly this.
    pub fn is_settled(&self) -> (r: bool)
        requires
            self.wf(),
        ensures
            r == (self.pending() == 0),
            0 <= self.outstanding() < 0x1_0000_0000_0000_0000 ==> (r <==> self.pushed()
                == self.evicted() + self.processed()),
    {
        proof {
            if 0 <= self.outstanding() < 0x1_0000_0000_0000_0000 {
                lemma_pending_is_outstanding(*self);
            }
        }
        self.pending == 0
    }

    /// Every producer is gone.
    pub fn is_disconnected(&self) -> (r: bool)
        ensures
            r == (self.senders() == 0),
    {
        self.senders == 0
    }
}

/// A well-formed queue holds at most its capacity, which is positive.
pub proof fn lemma_wf_bounds<T>(q: DropOldestQueue<T>)
    requires
        q.wf(),
    ensures
        0 < q.capacity(),
        q.contents().len() <= q.capacity(),
{
}

/// While the consumer has reported no more items processed than it was
/// handed, and fewer than 2^64 items are outstanding, the pending counter is
/// exactly the number of items pushed and neither evicted nor processed; in
/// particular it is zero exactly when every pushed item was evicted or
/// processed.
pub proof fn lemma_pending_is_outstanding<T>(q: DropOldestQueue<T>)
    requires
        q.wf(),
        0 <= q.outstanding() < 0x1_0000_0000_0000_0000,
    ensures
        q.pending() == q.outstanding(),
        q.pending() == 0 <==> q.pushed() == q.evicted() + q.processed(),
{
    let d = q.outstanding() - q.pending() as int;
    assert(-0x1_0000_0000_0000_0000 < d < 0x1_0000_0000_0000_0000);
    assert(d % 0x1_0000_0000_0000_0000 == 0);
    assert(d == 0) by (nonlinear_arith)
        requires
            -0x1_0000_0000_0000_0000 < d < 0x1_0000_0000_0000_0000,
            d % 0x1_0000_0000_0000_0000 == 0,
    ;
}

/// Pushing keeps at most `cap` items.
pub proof fn lemma_push_one_len<T>(items: Seq<T>, cap: nat, x: T)
    requires
        0 < cap,
        items.len() <= cap,
    ensures
        push_one(items, cap, x).len() == if items.len() == cap {
            items.len()
        } else {
            items.len() + 1
        },
{
}

/// A queue of positive capacity `cap` that starts empty holds, after any
/// sequence of pushes `xs`, exactly the last `min(cap, |xs|)` items of `xs`
/// in the order they were pushed, and has evicted the other
/// `max(0, |xs| - cap)`, the oldest ones.
pub proof fn lemma_drop_oldest<T>(cap: nat, xs: Seq<T>)
    requires
        0 < cap,
    ensures
        push_all(Seq::<T>::empty(), cap, xs) == xs.subrange(
            if xs.len() > cap {
                xs.len() - cap
            } else {
                0
            },
            xs.len() as int,
        ),
        evictions(Seq::<T>::empty(), cap, xs) == if xs.len() > cap {
            (xs.len() - cap) as nat
        } else {
            0nat
        },
    decreases xs.len(),
{
    if xs.len() > 0 {
        let ys = xs.drop_last();
        lemma_drop_oldest(cap, ys);
        let before = push_all(Seq::<T>::empty(), cap, ys);
        let lo = if ys.len() > cap {
            ys.len() - cap
        } else {
            0
        };
        assert(before == ys.subrange(lo, ys.len() as int));
        if before.len() >= cap {
            assert(push_one(before, cap, xs.last()) =~= xs.subrange(
                xs.len() - cap,
                xs.len() as int,
            ));
        } else {
            assert(push_one(before, cap, xs.last()) =~= xs.subrange(0, xs.len() as int));
        }
    } else {
        assert(xs.subrange(0, 0) =~= Seq::<T>::empty());
    }
}

} // verus!
