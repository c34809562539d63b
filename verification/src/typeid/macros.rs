//! What the owner constructors of `typeid` are built from: a token that only
//! they create, and a flag that marks the owner of a type as taken.

use vstd::prelude::*;

use core::sync::atomic::{AtomicBool, Ordering};

verus! {

/// A token that the owner constructors hand to the types they make owners of.
pub struct UnsafeCreate(());

impl UnsafeCreate {
    pub fn new() -> Self {
        UnsafeCreate(())
    }
}

/// How many times the doubling of the spin count is allowed to happen.
pub const SPIN_LIMIT: u32 = 6;

/// `core::hint::spin_loop`: tells the processor that the thread is spinning.
#[verifier::external_body]
fn spin_loop_hint() {
    core::hint::spin_loop()
}

/// The backoff after one more failed attempt: it grows until it passes the limit.
pub open spec fn next_backoff(backoff: u32) -> u32 {
    if backoff <= SPIN_LIMIT {
        (backoff + 1) as u32
    } else {
        backoff
    }
}

/// Starting from no failures, the backoff never passes `SPIN_LIMIT + 1`, so
/// the wait between attempts stops growing.
pub proof fn lemma_backoff_bounded(backoff: u32)
    requires
        backoff <= SPIN_LIMIT + 1,
    ensures
        next_backoff(backoff) <= SPIN_LIMIT + 1,
        backoff == SPIN_LIMIT + 1 ==> next_backoff(backoff) == backoff,
{
}

/// Wait after a failed attempt to take a flag: spin `2^min(backoff, SPIN_LIMIT)`
/// times and return the backoff for the next failure.
pub fn spin(backoff: u32) -> (r: u32)
    ensures
        r == next_backoff(backoff),
{
    let shift = if backoff < SPIN_LIMIT {
        backoff
    } else {
        SPIN_LIMIT
    };
    let spins: u32 = 1u32 << shift;
    let mut i: u32 = 0;
    while i < spins
        invariant
            i <= spins,
        decreases spins - i,
    {
        spin_loop_hint();
        i = i + 1;
    }
    if backoff <= SPIN_LIMIT {
        backoff + 1
    } else {
        backoff
    }
}

/// Whether a thread that finds the flag taken gives up instead of waiting:
/// when the flag is held by the thread itself, waiting would never end.
pub fn held_by_current_thread(holder: usize, current: usize) -> (r: bool)
    ensures
        r == (holder == current),
{
    holder == current
}

/// A flag marking the owner of a type as taken.
pub struct Flag(AtomicBool);

impl Flag {
    /// A flag that is not taken.
    pub fn new() -> Self {
        Flag(AtomicBool::new(false))
    }

    /// Prepare the flag for use; a spinning flag needs nothing.
    pub fn init(&self) {
    }

    /// Make one attempt to take the flag; `true` when it was free and is now taken.
    pub fn try_acquire(&self) -> bool {
        self.0.compare_exchange_weak(false, true, Ordering::Acquire, Ordering::Relaxed).is_ok()
    }

    /// Mark the flag as free again.
    pub fn release(&self) {
        self.0.store(false, Ordering::Release)
    }
}

} // verus!
