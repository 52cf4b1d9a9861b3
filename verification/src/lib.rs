//! A reference-counted, cloneable handle to a shared value with built-in
//! reader/writer mutual exclusion, verified as an explicit state model.
//!
//! The locking engine — the shared control block, the atomic lock-state
//! machine, the spin-then-queue escalation policy, the FIFO wait queue with
//! its relay wakeup protocol, and the guard tokens — lives here as a value
//! whose every transition carries a contract. A concurrent shell can run
//! the same protocol by applying these decision functions inside atomic
//! retry loops and by parking the threads the model tells it to park.
//!
//! Fairness policy, stated once and for all: a requester always tries the
//! fast path first, so it may slip past the queue while the queue is
//! empty or mid-drain; but after a failed attempt it defers to the queue
//! as soon as the spin budget is spent or any waiter exists, and from
//! then on strict FIFO order governs, with only the head ever served.

use vstd::prelude::*;

pub mod cura;
pub mod ownership;
pub mod queue;
pub mod word;

pub use cura::Cura;
pub use cura::DropOutcome;
pub use cura::Guard;
pub use cura::ReadGuard;

verus! {

/// Relies on `std::time::SystemTime::now`: the wall clock's distance from
/// the Unix epoch in milliseconds, or `None` when the clock reads earlier
/// than the epoch. A clock is not a function of anything, so nothing is
/// promised of the result.
#[verifier::external_body]
fn epoch_millis() -> (t: Option<u128>) {
    match std::time::SystemTime::now().duration_since(std::time::UNIX_EPOCH) {
        Ok(d) => Some(d.as_millis()),
        Err(_) => None,
    }
}

/// The current wall-clock time in milliseconds since the Unix epoch, and
/// zero on a clock that reads earlier than the epoch. A convenience for
/// timing measurements around the lock; the reading is nondeterministic,
/// so no more can be said of it.
pub fn current_time() -> u128 {
    match epoch_millis() {
        Some(m) => m,
        None => 0,
    }
}

} // verus!
