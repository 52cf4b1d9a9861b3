//! The two atomic words of the locking protocol, modelled as plain integers.
//!
//! The lock word is a signed integer: `FREE` (zero) means nobody holds the
//! lock, a positive value counts the readers currently admitted, and the
//! negative sentinel `LOCKED` means one writer holds exclusive access.
//!
//! The queue word is an unsigned counter with a dual purpose: its low range
//! counts the threads currently blocked in the wait queue, while the large
//! additive offset `LOCK_QUEUE` serves as a transient mutual-exclusion flag
//! over the queue's structure (lock = add the offset, unlock = subtract it).
//!
//! The functions here are the decisions a requester applies atomically to
//! those words; a concurrent shell runs each of them inside a single
//! compare-and-swap retry loop.

use vstd::prelude::*;

verus! {

/// Sentinel value of the lock word while a writer holds exclusive access.
pub const LOCKED: i32 = -999;

/// Value of the lock word while the lock is free.
pub const FREE: i32 = 0;

/// Additive offset on the queue word that acts as the queue's own lock.
pub const LOCK_QUEUE: u32 = u32::MAX / 2;

/// The lock word only ever holds the write sentinel or a reader count.
pub open spec fn valid_lock_word(w: i32) -> bool {
    w == LOCKED || w >= 0
}

/// A writer holds the lock exactly when the word is the sentinel.
pub open spec fn is_write_locked(w: i32) -> bool {
    w == LOCKED
}

/// How many readers the word admits; zero while a writer holds it.
pub open spec fn reader_count(w: i32) -> int {
    if w >= 0 {
        w as int
    } else {
        0
    }
}

/// The queue word carries the structural lock flag when it is offset.
pub open spec fn queue_locked(w: u32) -> bool {
    w >= LOCK_QUEUE
}

/// The number of blocked threads the queue word records, lock flag aside.
pub open spec fn blocked_count(w: u32) -> int {
    if w >= LOCK_QUEUE {
        w - LOCK_QUEUE
    } else {
        w as int
    }
}

/// Fast-path decision of a reader: admit one more reader only while no
/// writer holds the word (and the count has room to grow).
pub fn read_admit(w: i32) -> (r: Option<i32>)
    ensures
        r == (if 0 <= w < i32::MAX {
            Some((w + 1) as i32)
        } else {
            None::<i32>
        }),
        r matches Some(n) ==> valid_lock_word(n) && reader_count(n) == reader_count(w) + 1,
        r is None ==> !(0 <= w < i32::MAX),
{
    if 0 <= w && w < i32::MAX {
        Some(w + 1)
    } else {
        None
    }
}

/// Fast-path decision of a writer: take the word from free to the write
/// sentinel, and refuse in every other state.
pub fn write_admit(w: i32) -> (r: Option<i32>)
    ensures
        r == (if w == FREE {
            Some(LOCKED)
        } else {
            None::<i32>
        }),
        r matches Some(n) ==> is_write_locked(n),
{
    if w == FREE {
        Some(LOCKED)
    } else {
        None
    }
}

/// Decision that takes the queue's structural lock: add the offset, but
/// only while nobody else holds it.
pub fn queue_lock_step(w: u32) -> (r: Option<u32>)
    ensures
        r == (if w < LOCK_QUEUE {
            Some((w + LOCK_QUEUE) as u32)
        } else {
            None::<u32>
        }),
        r matches Some(n) ==> queue_locked(n) && blocked_count(n) == blocked_count(w),
{
    if w < LOCK_QUEUE {
        Some(w + LOCK_QUEUE)
    } else {
        None
    }
}

/// Decision that releases the queue's structural lock by subtracting the
/// offset; releasing a lock that is not held is a protocol violation and
/// is excluded outright.
pub fn queue_unlock_step(w: u32) -> (r: u32)
    requires
        queue_locked(w),
    ensures
        r == w - LOCK_QUEUE,
        blocked_count(w) < LOCK_QUEUE ==> blocked_count(r) == blocked_count(w),
{
    w - LOCK_QUEUE
}

/// Escalation policy shared by readers and writers: keep spinning only for
/// a few failed fast-path attempts, and give up immediately when somebody
/// is already queued, so that fresh arrivals cannot starve the queue.
pub fn should_enqueue(loops: u32, queue_size: u32) -> (b: bool)
    ensures
        b == (loops > 3 || queue_size > 0),
{
    loops > 3 || queue_size > 0
}

/// The three lock states are mutually exclusive: a free word admits nobody,
/// a write-locked word counts no readers, and a word with readers is not
/// write-locked.
pub proof fn lemma_lock_word_states(w: i32)
    requires
        valid_lock_word(w),
    ensures
        is_write_locked(w) ==> reader_count(w) == 0,
        reader_count(w) > 0 ==> !is_write_locked(w),
        w == FREE ==> !is_write_locked(w) && reader_count(w) == 0,
{
}

/// Taking and then releasing the queue's structural lock returns the word
/// to its old value, and never disturbs the blocked-thread count.
pub proof fn lemma_queue_lock_roundtrip(w: u32)
    requires
        !queue_locked(w),
    ensures
        queue_locked((w + LOCK_QUEUE) as u32),
        blocked_count((w + LOCK_QUEUE) as u32) == blocked_count(w),
        ((w + LOCK_QUEUE) as u32) - LOCK_QUEUE == w,
{
}

} // verus!
