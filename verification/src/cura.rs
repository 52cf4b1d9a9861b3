//! The shared control block and its lock state machine.
//!
//! A [`Cura`] value models one control block together with everything the
//! protocol keeps in it: the owner count of the outstanding handles, the
//! lock word, the FIFO wait queue, and the protected payload. Every
//! transition the concurrent protocol performs — cloning and dropping a
//! handle, the fast-path acquisitions, escalation into the queue, the
//! relay rounds, and the releases — stands here as a verified function
//! whose contract pins the next state down exactly.
//!
//! The payload is reachable only through a guard: the accessors demand one
//! and the guards cannot be constructed outside this module, so the value
//! is never touched outside an acquisition.

use vstd::prelude::*;
use crate::ownership::{OwnerOp, freed_at, lemma_history_step, owners_after, valid_history};
use crate::queue::{Mode, RelayOutcome, Waiter, WaitQueue};
use crate::word::{FREE, LOCKED, read_admit, should_enqueue, write_admit};

verus! {

/// Exclusive-access token, handed out by a successful write acquisition
/// and consumed exactly once by the matching release.
#[must_use]
pub struct Guard {
    token: (),
}

/// Shared-access token, handed out by a successful read acquisition and
/// consumed exactly once by the matching release.
#[must_use]
pub struct ReadGuard {
    token: (),
}

/// What becomes of the control block when a handle is dropped: either
/// other handles remain and the block lives on, or the dropped handle was
/// the last one and the payload comes back out to be destroyed — exactly
/// once, and only at that moment.
pub enum DropOutcome<T> {
    /// Other handles remain; the block lives on with one owner fewer.
    Alive(Cura<T>),
    /// The last handle is gone; the freed payload leaves the block.
    Freed(T),
}

/// One shared control block: owner count, lock word, wait queue, payload.
pub struct Cura<T> {
    owners: usize,
    lock_word: i32,
    queue: WaitQueue,
    payload: T,
    history: Ghost<Seq<OwnerOp>>,
}

impl<T> Cura<T> {
    /// How many handles own the block.
    pub closed spec fn owners(&self) -> int {
        self.owners as int
    }

    /// The lock word: the write sentinel, or the count of admitted readers.
    pub closed spec fn lock_word(&self) -> i32 {
        self.lock_word
    }

    /// The blocked requesters, head first.
    pub closed spec fn waiters(&self) -> Seq<Waiter> {
        self.queue@
    }

    /// The protected value.
    pub closed spec fn value(&self) -> T {
        self.payload
    }

    /// The ownership history: every clone and drop of a handle of this
    /// block, in order, since construction.
    pub closed spec fn history(&self) -> Seq<OwnerOp> {
        self.history@
    }

    /// A writer holds the lock.
    pub open spec fn write_locked(&self) -> bool {
        self.lock_word() == LOCKED
    }

    /// How many readers hold the lock.
    pub open spec fn readers(&self) -> int {
        if self.lock_word() >= 0 {
            self.lock_word() as int
        } else {
            0
        }
    }

    /// Nobody holds the lock.
    pub open spec fn free(&self) -> bool {
        self.lock_word() == FREE
    }

    /// Well-formedness: the lock word stays in its three-state domain, a
    /// block only exists while at least one handle owns it, and the owner
    /// count is exactly what the block's valid ownership history yields.
    pub open spec fn wf(&self) -> bool {
        &&& self.lock_word() == LOCKED || self.lock_word() >= 0
        &&& self.owners() >= 1
        &&& valid_history(self.history())
        &&& owners_after(self.history()) == self.owners()
    }

    /// Everything a lock transition leaves alone: ownership, queue, payload.
    pub open spec fn same_but_lock(pre: Self, post: Self) -> bool {
        &&& post.owners() == pre.owners()
        &&& post.waiters() == pre.waiters()
        &&& post.value() == pre.value()
        &&& post.history() == pre.history()
    }

    /// State relation of a write release: the lock word returns to free
    /// and nothing else moves — in particular the payload the writer
    /// committed stays exactly as it was.
    pub open spec fn release_write_rel(pre: Self, post: Self) -> bool {
        &&& pre.write_locked()
        &&& post.lock_word() == FREE
        &&& Self::same_but_lock(pre, post)
    }

    /// State relation of a successful read acquisition: one more reader,
    /// nothing else moves — in particular the payload is untouched.
    pub open spec fn acquire_read_rel(pre: Self, post: Self) -> bool {
        &&& pre.lock_word() >= 0
        &&& post.lock_word() == pre.lock_word() + 1
        &&& Self::same_but_lock(pre, post)
    }

    /// Allocate a control block around a value: one owner, a free lock,
    /// an empty queue.
    pub fn new(t: T) -> (c: Cura<T>)
        ensures
            c.wf(),
            c.owners() == 1,
            c.lock_word() == FREE,
            c.waiters() == Seq::<Waiter>::empty(),
            c.value() == t,
            c.history() == Seq::<OwnerOp>::empty(),
    {
        Self::from_box(Box::new(t))
    }

    /// The construction path for a value that already sits behind one
    /// level of indirection; the block takes the boxed value over.
    pub fn from_box(v: Box<T>) -> (c: Cura<T>)
        ensures
            c.wf(),
            c.owners() == 1,
            c.lock_word() == FREE,
            c.waiters() == Seq::<Waiter>::empty(),
            c.value() == *v,
            c.history() == Seq::<OwnerOp>::empty(),
    {
        Cura {
            owners: 1,
            lock_word: FREE,
            queue: WaitQueue::new(),
            payload: *v,
            history: Ghost(Seq::empty()),
        }
    }

    /// Clone a handle: one more owner, nothing else moves. The count is
    /// never used to synchronize payload access, only lifetime.
    pub fn clone_handle(&mut self)
        requires
            old(self).wf(),
            old(self).owners() < usize::MAX,
        ensures
            final(self).wf(),
            final(self).owners() == old(self).owners() + 1,
            final(self).lock_word() == old(self).lock_word(),
            final(self).waiters() == old(self).waiters(),
            final(self).value() == old(self).value(),
            final(self).history() == old(self).history().push(OwnerOp::Cloned),
    {
        proof {
            lemma_history_step(self.history@, OwnerOp::Cloned);
        }
        self.owners = self.owners + 1;
        self.history = Ghost(self.history@.push(OwnerOp::Cloned));
    }

    /// Drop a handle: one owner fewer, and when the dropped handle was the
    /// last one the block is freed and the payload comes back out. The
    /// outcome says exactly which of the two happened, so the destructor
    /// of the payload can run exactly once, strictly after the last drop.
    pub fn drop_handle(self) -> (r: DropOutcome<T>)
        requires
            self.wf(),
        ensures
            self.owners() > 1 ==> (r matches DropOutcome::Alive(c) && c.wf() && c.owners() == self.owners()
                - 1 && c.lock_word() == self.lock_word() && c.waiters() == self.waiters()
                && c.value() == self.value() && c.history() == self.history().push(
                OwnerOp::Dropped,
            )),
            self.owners() == 1 ==> (r matches DropOutcome::Freed(p) && p == self.value()
                && freed_at(
                self.history().push(OwnerOp::Dropped),
                self.history().len() as int,
            )),
    {
        proof {
            lemma_history_step(self.history@, OwnerOp::Dropped);
            let h2 = self.history@.push(OwnerOp::Dropped);
            assert(h2.take(h2.len() as int) =~= h2);
        }
        if self.owners > 1 {
            DropOutcome::Alive(
                Cura {
                    owners: self.owners - 1,
                    history: Ghost(self.history@.push(OwnerOp::Dropped)),
                    ..self
                },
            )
        } else {
            DropOutcome::Freed(self.payload)
        }
    }

    /// A reader's fast path: apply the read-admission decision to the lock
    /// word. It succeeds exactly while no writer holds the lock (and the
    /// reader count has room), and it admits this reader alone — so a
    /// write guard and a read guard can never be alive at once. On
    /// success, the freshly admitted reader also reports whom to wake: the
    /// head of the queue, but only if the head itself waits to read.
    pub fn try_read(&mut self) -> (r: (Option<ReadGuard>, Option<u64>))
        requires
            old(self).wf(),
        ensures
            final(self).wf(),
            Self::same_but_lock(*old(self), *final(self)),
            0 <= old(self).lock_word() < i32::MAX ==> (r.0 matches Some(g))
                && Self::acquire_read_rel(*old(self), *final(self)),
            !(0 <= old(self).lock_word() < i32::MAX) ==> r.0 is None && final(self).lock_word()
                == old(self).lock_word(),
            r.1 == (if r.0 is Some && old(self).waiters().len() > 0 && old(self).waiters()[0].mode == Mode::Read {
                Some(old(self).waiters()[0].thread)
            } else {
                None::<u64>
            }),
    {
        match read_admit(self.lock_word) {
            Some(n) => {
                self.lock_word = n;
                let wake = if self.queue.len() > 0 {
                    self.queue.wake_reader_target()
                } else {
                    None
                };
                (Some(ReadGuard { token: () }), wake)
            },
            None => (None, None),
        }
    }

    /// A writer's fast path: apply the write-admission decision to the
    /// lock word. It succeeds exactly while the lock is free, and then
    /// this writer holds it alone.
    pub fn try_write(&mut self) -> (r: Option<Guard>)
        requires
            old(self).wf(),
        ensures
            final(self).wf(),
            Self::same_but_lock(*old(self), *final(self)),
            old(self).free() ==> (r matches Some(g)) && final(self).write_locked(),
            !old(self).free() ==> r is None && final(self).lock_word() == old(self).lock_word(),
    {
        match write_admit(self.lock_word) {
            Some(n) => {
                self.lock_word = n;
                Some(Guard { token: () })
            },
            None => None,
        }
    }

    /// The escalation decision after a failed fast path: spin a little
    /// longer, or enqueue now. A requester stops spinning after a few
    /// failed attempts, and immediately when somebody is already queued,
    /// so fresh arrivals cannot starve the threads that already escalated.
    pub fn must_enqueue(&self, loops: u32) -> (b: bool)
        ensures
            b == (loops > 3 || self.waiters().len() > 0),
    {
        let n = self.queue.len();
        should_enqueue(loops, if n > u32::MAX as usize {
            u32::MAX
        } else {
            n as u32
        })
    }

    /// A requester that gave up spinning joins the queue: it is appended
    /// at the tail, behind every thread that escalated before it.
    pub fn enqueue_waiter(&mut self, thread: u64, mode: Mode)
        requires
            old(self).wf(),
        ensures
            final(self).wf(),
            final(self).waiters() == old(self).waiters().push(Waiter { thread, mode }),
            final(self).lock_word() == old(self).lock_word(),
            final(self).owners() == old(self).owners(),
            final(self).value() == old(self).value(),
            final(self).history() == old(self).history(),
    {
        self.queue.enqueue(Waiter { thread, mode });
    }

    /// One relay round of a woken thread: the head leaves the queue and
    /// may retry the fast path; anyone else forwards the wakeup to the
    /// head and blocks again. Only the head is ever served, so the queue
    /// stays strictly FIFO.
    pub fn on_wake(&mut self, thread: u64) -> (r: RelayOutcome)
        requires
            old(self).wf(),
            old(self).waiters().len() > 0,
        ensures
            final(self).wf(),
            final(self).lock_word() == old(self).lock_word(),
            final(self).owners() == old(self).owners(),
            final(self).value() == old(self).value(),
            final(self).history() == old(self).history(),
            old(self).waiters()[0].thread == thread ==> r == RelayOutcome::Proceed && final(self).waiters() == old(self).waiters().subrange(1, old(self).waiters().len() as int),
            old(self).waiters()[0].thread != thread ==> r == RelayOutcome::Forward(
                old(self).waiters()[0].thread,
            ) && final(self).waiters() == old(self).waiters(),
    {
        self.queue.relay_step(thread)
    }

    /// Release exclusive access: wake the head of the queue first, then
    /// return the lock word from the write sentinel to free. The guard is
    /// consumed, so the release runs exactly once per acquisition; the
    /// payload the writer committed is left untouched for every later
    /// acquisition to observe.
    pub fn unwritelock(&mut self, g: Guard) -> (wake: Option<u64>)
        requires
            old(self).wf(),
            old(self).write_locked(),
        ensures
            final(self).wf(),
            final(self).free(),
            Self::release_write_rel(*old(self), *final(self)),
            old(self).waiters().len() > 0 ==> wake == Some(old(self).waiters()[0].thread),
            old(self).waiters().len() == 0 ==> wake is None,
    {
        let Guard { token: _ } = g;
        let wake = self.queue.wake_next_target();
        self.lock_word = FREE;
        wake
    }

    /// Release shared access: one reader fewer, and the head of the queue
    /// is offered a wakeup unconditionally, so a waiting writer cannot
    /// stall once the last reader departs. The guard is consumed, so the
    /// release runs exactly once per acquisition.
    pub fn unreadlock(&mut self, g: ReadGuard) -> (wake: Option<u64>)
        requires
            old(self).wf(),
            old(self).readers() >= 1,
        ensures
            final(self).wf(),
            final(self).lock_word() == old(self).lock_word() - 1,
            Self::same_but_lock(*old(self), *final(self)),
            old(self).waiters().len() > 0 ==> wake == Some(old(self).waiters()[0].thread),
            old(self).waiters().len() == 0 ==> wake is None,
    {
        let ReadGuard { token: _ } = g;
        self.lock_word = self.lock_word - 1;
        self.queue.wake_next_target()
    }

    /// Read-lock and return the guard. This is the sequential face of the
    /// protocol: within one thread of control the fast path is decisive,
    /// so the call demands what would otherwise merely make it block — no
    /// writer may hold the lock (and the count must have room).
    pub fn read(&mut self) -> (g: ReadGuard)
        requires
            old(self).wf(),
            0 <= old(self).lock_word() < i32::MAX,
        ensures
            final(self).wf(),
            Self::acquire_read_rel(*old(self), *final(self)),
    {
        let (g, _wake) = self.try_read();
        g.unwrap()
    }

    /// Write-lock and return the guard. As with [`Cura::read`], the
    /// sequential face demands what would otherwise make the call block:
    /// the lock must be free.
    pub fn write(&mut self) -> (g: Guard)
        requires
            old(self).wf(),
            old(self).free(),
        ensures
            final(self).wf(),
            final(self).write_locked(),
            Self::same_but_lock(*old(self), *final(self)),
    {
        self.try_write().unwrap()
    }

    /// Read the payload through a read guard: the only shared-access path
    /// to the value.
    pub fn get(&self, g: &ReadGuard) -> (v: &T)
        requires
            self.readers() >= 1,
        ensures
            *v == self.value(),
    {
        &self.payload
    }

    /// Read the payload through a write guard, which also grants shared
    /// access for its lifetime.
    pub fn get_exclusive(&self, g: &Guard) -> (v: &T)
        requires
            self.write_locked(),
        ensures
            *v == self.value(),
    {
        &self.payload
    }

    /// Replace the payload through a write guard, handing the old value
    /// back: the only mutation path to the value.
    pub fn replace(&mut self, g: &Guard, v: T) -> (prev: T)
        requires
            old(self).wf(),
            old(self).write_locked(),
        ensures
            final(self).wf(),
            prev == old(self).value(),
            final(self).value() == v,
            final(self).lock_word() == old(self).lock_word(),
            final(self).waiters() == old(self).waiters(),
            final(self).owners() == old(self).owners(),
            final(self).history() == old(self).history(),
    {
        let mut prev = v;
        core::mem::swap(&mut self.payload, &mut prev);
        prev
    }

    /// Acquire exclusive access, offer the current value to `f`, and
    /// release — one call instead of lock, maybe-mutate, unlock. Either
    /// `f` produces a replacement, which is committed whole and reported
    /// as applied (`Some`), or it declines and the payload is left
    /// bit-for-bit unchanged, reported as a no-op (`None`). The write
    /// guard is taken and released exactly once on both branches, so no
    /// concurrent reader can ever observe a partial update.
    pub fn alter<F: Fn(&T) -> Option<T>>(&mut self, f: F) -> (r: Option<()>)
        requires
            old(self).wf(),
            old(self).free(),
            call_requires(f, (&old(self).value(),)),
        ensures
            final(self).wf(),
            final(self).free(),
            final(self).owners() == old(self).owners(),
            final(self).waiters() == old(self).waiters(),
            final(self).history() == old(self).history(),
            r is Some ==> call_ensures(f, (&old(self).value(),), Some(final(self).value())),
            r is None ==> final(self).value() == old(self).value() && call_ensures(
                f,
                (&old(self).value(),),
                None::<T>,
            ),
    {
        let g = self.write();
        let outcome = f(&self.payload);
        match outcome {
            Some(v) => {
                let _prev = self.replace(&g, v);
                let _wake = self.unwritelock(g);
                Some(())
            },
            None => {
                let _wake = self.unwritelock(g);
                None
            },
        }
    }
}

/// Mutual exclusion, at the heart of the lock-word domain: in every
/// well-formed state, a writer's hold and a reader's hold exclude each
/// other — while a write guard is alive no read guard is, and any number
/// of readers leave no room for a writer.
pub proof fn lemma_mutual_exclusion<T>(c: Cura<T>)
    requires
        c.wf(),
    ensures
        c.write_locked() ==> c.readers() == 0,
        c.readers() > 0 ==> !c.write_locked(),
        !(c.write_locked() && c.readers() > 0),
{
}

/// Read-after-write consistency: a read acquisition that begins after a
/// write guard has been released observes exactly the value the writer
/// committed — releasing and acquiring both leave the payload untouched.
pub proof fn lemma_read_after_write<T>(s0: Cura<T>, s1: Cura<T>, s2: Cura<T>)
    requires
        Cura::release_write_rel(s0, s1),
        Cura::acquire_read_rel(s1, s2),
    ensures
        s2.value() == s0.value(),
{
}

} // verus!
