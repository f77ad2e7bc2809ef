//! A single, reschedulable idle deadline per room: arming replaces any pending
//! deadline, and firing clears it.

use vstd::prelude::*;

verus! {

/// How long a room may stay without activity before it ends.
pub const CHAT_EXPIRY_IN_SECONDS: u64 = 300;

/// The deadline that arming at `now` sets, in milliseconds; it stays at the
/// largest instant where the sum would not fit.
pub open spec fn deadline_after(now: u64, ttl: u64) -> u64 {
    if now as int + ttl as int > u64::MAX as int {
        u64::MAX
    } else {
        (now + ttl) as u64
    }
}

pub struct ExpiryScheduler {
    ttl_ms: u64,
    deadline: Option<u64>,
}

impl ExpiryScheduler {
    pub closed spec fn ttl(&self) -> u64 {
        self.ttl_ms
    }

    pub closed spec fn pending(&self) -> Option<u64> {
        self.deadline
    }

    /// A scheduler with no pending deadline, whose window is `ttl_ms` milliseconds.
    pub fn new(ttl_ms: u64) -> (r: ExpiryScheduler)
        ensures
            r.ttl() == ttl_ms,
            r.pending() == None::<u64>,
    {
        ExpiryScheduler { ttl_ms, deadline: None }
    }

    pub fn ttl_ms(&self) -> (r: u64)
        ensures
            r == self.ttl(),
    {
        self.ttl_ms
    }

    pub fn deadline(&self) -> (r: Option<u64>)
        ensures
            r == self.pending(),
    {
        self.deadline
    }

    /// Sets the deadline to one window after `now`, replacing any pending one.
    pub fn arm(&mut self, now: u64)
        ensures
            final(self).ttl() == old(self).ttl(),
            final(self).pending() == Some(deadline_after(now, old(self).ttl())),
    {
        let d = match now.checked_add(self.ttl_ms) {
            Some(d) => d,
            None => u64::MAX,
        };
        self.deadline = Some(d);
    }

    pub fn is_due(&self, now: u64) -> (r: bool)
        ensures
            r == (self.pending() matches Some(d) && now >= d),
    {
        match self.deadline {
            Some(d) => now >= d,
            None => false,
        }
    }

    /// Clears the deadline if it has passed at `now`, and says whether it did.
    pub fn fire(&mut self, now: u64) -> (r: bool)
        ensures
            r == (old(self).pending() matches Some(d) && now >= d),
            final(self).ttl() == old(self).ttl(),
            final(self).pending() == if r {
                None
            } else {
                old(self).pending()
            },
    {
        if self.is_due(now) {
            self.deadline = None;
            true
        } else {
            false
        }
    }
}

} // verus!
