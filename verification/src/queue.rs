//! The FIFO wait queue of blocked requesters, and the relay wakeup
//! protocol that keeps it strictly first-in, first-out.
//!
//! Each waiter records the requesting thread and the access mode it wants.
//! Enqueue appends at the tail and is the only way in; only the head is
//! ever served. A woken thread that is not the head forwards the wakeup to
//! whichever waiter currently stands at the head and blocks again, so the
//! thread that ultimately proceeds is exactly the logical head.

use vstd::prelude::*;
use std::collections::VecDeque;

verus! {

/// The access a blocked requester is waiting for.
#[derive(Clone, Copy, PartialEq, Eq, Structural, Debug)]
pub enum Mode {
    /// Shared access.
    Read,
    /// Exclusive access.
    Write,
}

/// One blocked requester: its thread identity and the mode it wants.
#[derive(Clone, Copy, PartialEq, Eq, Structural, Debug)]
pub struct Waiter {
    /// Identity of the blocked thread.
    pub thread: u64,
    /// The access it requested.
    pub mode: Mode,
}

/// What a woken thread learns from one round of the relay protocol.
#[derive(Clone, Copy, PartialEq, Eq, Structural, Debug)]
pub enum RelayOutcome {
    /// The woken thread is the head: it has left the queue and may retry
    /// the fast path.
    Proceed,
    /// The woken thread is not the head: it must forward the wakeup to
    /// the named thread and block again.
    Forward(u64),
}

/// The wait queue itself: a FIFO list of waiters, head first.
pub struct WaitQueue {
    items: VecDeque<Waiter>,
}

impl View for WaitQueue {
    type V = Seq<Waiter>;

    closed spec fn view(&self) -> Seq<Waiter> {
        self.items@
    }
}

impl WaitQueue {
    /// An empty queue: nobody is blocked.
    pub fn new() -> (q: WaitQueue)
        ensures
            q@ == Seq::<Waiter>::empty(),
    {
        WaitQueue { items: VecDeque::new() }
    }

    /// How many requesters are blocked.
    pub fn len(&self) -> (n: usize)
        ensures
            n == self@.len(),
    {
        self.items.len()
    }

    /// Whether anybody is blocked at all.
    pub fn is_empty(&self) -> (b: bool)
        ensures
            b == (self@.len() == 0),
    {
        self.items.len() == 0
    }

    /// Append a waiter at the tail: the only way a requester enters the
    /// queue, so nobody ever jumps ahead of an already-blocked thread.
    pub fn enqueue(&mut self, w: Waiter)
        ensures
            final(self)@ == old(self)@.push(w),
    {
        self.items.push_back(w);
    }

    /// Remove and return the head: the only way a requester leaves.
    pub fn dequeue(&mut self) -> (w: Option<Waiter>)
        ensures
            old(self)@.len() > 0 ==> w == Some(old(self)@[0]) && final(self)@ == old(self)@.subrange(
                1,
                old(self)@.len() as int,
            ),
            old(self)@.len() == 0 ==> w is None && final(self)@ == old(self)@,
    {
        self.items.pop_front()
    }

    /// The head of the queue, if anybody is blocked.
    pub fn front(&self) -> (w: Option<Waiter>)
        ensures
            self@.len() > 0 ==> w == Some(self@[0]),
            self@.len() == 0 ==> w is None,
    {
        if self.items.len() > 0 {
            Some(self.items[0])
        } else {
            None
        }
    }

    /// One round of the relay protocol, run by a woken thread while it
    /// holds the queue's structural lock. The head dequeues itself and
    /// proceeds; anyone else leaves the queue untouched and forwards the
    /// wakeup to the head. A thread only wakes while it is queued, so the
    /// queue cannot be empty here.
    pub fn relay_step(&mut self, thread: u64) -> (r: RelayOutcome)
        requires
            old(self)@.len() > 0,
        ensures
            old(self)@[0].thread == thread ==> r == RelayOutcome::Proceed && final(self)@ == old(
                self,
            )@.subrange(1, old(self)@.len() as int),
            old(self)@[0].thread != thread ==> r == RelayOutcome::Forward(old(self)@[0].thread)
                && final(self)@ == old(self)@,
    {
        let head = self.front().unwrap();
        if head.thread == thread {
            let _ = self.dequeue();
            RelayOutcome::Proceed
        } else {
            RelayOutcome::Forward(head.thread)
        }
    }

    /// Whom a release wakes: always the current head, never anyone behind
    /// it, so a queued writer is never skipped over.
    pub fn wake_next_target(&self) -> (t: Option<u64>)
        ensures
            self@.len() > 0 ==> t == Some(self@[0].thread),
            self@.len() == 0 ==> t is None,
    {
        match self.front() {
            Some(w) => Some(w.thread),
            None => None,
        }
    }

    /// Whom a freshly admitted reader wakes: the head, but only if the
    /// head itself waits to read. This lets a chain of queued readers
    /// drain in parallel without overtaking a queued writer at the front.
    pub fn wake_reader_target(&self) -> (t: Option<u64>)
        ensures
            t == (if self@.len() > 0 && self@[0].mode == Mode::Read {
                Some(self@[0].thread)
            } else {
                None::<u64>
            }),
    {
        match self.front() {
            Some(w) => if w.mode == Mode::Read {
                Some(w.thread)
            } else {
                None
            },
            None => None,
        }
    }
}

/// FIFO preservation: appending a waiter at the tail moves nobody who was
/// already queued, so a waiter's position never grows while it waits.
pub proof fn lemma_enqueue_preserves_positions(q: Seq<Waiter>, w: Waiter, i: int)
    requires
        0 <= i < q.len(),
    ensures
        q.push(w)[i] == q[i],
{
}

/// FIFO progress: when the head is served and leaves, every remaining
/// waiter moves exactly one position closer to the head.
pub proof fn lemma_dequeue_advances_positions(q: Seq<Waiter>, i: int)
    requires
        1 <= i < q.len(),
    ensures
        q.subrange(1, q.len() as int)[i - 1] == q[i],
{
}

/// The queue after the head has been served `n` times.
pub open spec fn after_services(q: Seq<Waiter>, n: int) -> Seq<Waiter>
    decreases n,
{
    if n <= 0 {
        q
    } else {
        let prev = after_services(q, n - 1);
        prev.subrange(1, prev.len() as int)
    }
}

/// Serving the head `n` times serves exactly the first `n` waiters, in
/// order, and leaves the rest standing in their order.
pub proof fn lemma_services_drain_in_order(q: Seq<Waiter>, n: int)
    requires
        0 <= n <= q.len(),
    ensures
        after_services(q, n) == q.subrange(n, q.len() as int),
    decreases n,
{
    if n > 0 {
        lemma_services_drain_in_order(q, n - 1);
        assert(after_services(q, n) =~= q.subrange(n, q.len() as int));
    } else {
        assert(after_services(q, 0) =~= q.subrange(0, q.len() as int));
    }
}

/// Non-starvation, the discrete core: a waiter standing at position `i`
/// reaches the head after exactly `i` services of the queue ahead of it.
/// Together with the relay contract — only the head is ever served, a
/// non-head wakeup is forwarded to the head, and enqueues append strictly
/// behind — no escalated requester can be overtaken or left waiting while
/// the queue drains: it is served within a bounded number of relay
/// cycles, namely its distance from the head.
pub proof fn lemma_every_waiter_reaches_the_head(q: Seq<Waiter>, i: int)
    requires
        0 <= i < q.len(),
    ensures
        after_services(q, i)[0] == q[i],
{
    lemma_services_drain_in_order(q, i);
}

} // verus!
