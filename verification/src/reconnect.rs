//! The reconnect budget: how long to wait before the next automatic attempt,
//! and when to stop trying.
//!
//! Times are milliseconds on one monotonic clock chosen by the caller.
use vstd::prelude::*;

verus! {

/// How many automatic attempts fit in one window.
pub const MAX_ATTEMPTS: usize = 5;

/// How long an attempt counts against the budget, in milliseconds.
pub const WINDOW_MS: u64 = 600_000;

/// The wait before the attempt that follows `earlier` attempts still in the window.
pub open spec fn spec_delay_ms(earlier: nat) -> u64 {
    if earlier == 0 {
        1_000
    } else if earlier == 1 {
        5_000
    } else if earlier == 2 {
        15_000
    } else if earlier == 3 {
        30_000
    } else {
        60_000
    }
}

/// Milliseconds from `earlier` to `now`; zero when `earlier` lies after `now`.
pub open spec fn spec_since(now: u64, earlier: u64) -> nat {
    if earlier <= now {
        (now - earlier) as nat
    } else {
        0
    }
}

/// An attempt made at `at` still counts against the budget at `now`.
pub open spec fn spec_in_window(now: u64, at: u64) -> bool {
    spec_since(now, at) < WINDOW_MS
}

/// The attempts that still count at `now`, in the order they were made.
pub open spec fn spec_kept(attempts: Seq<u64>, now: u64) -> Seq<u64> {
    attempts.filter(in_window_at(now))
}

/// `spec_in_window` with `now` fixed.
pub open spec fn in_window_at(now: u64) -> spec_fn(u64) -> bool {
    |at: u64| spec_in_window(now, at)
}

/// What one call of `next_delay` at `now` makes of the attempts `before`:
/// those that left the window are dropped; while fewer than the budget
/// remain, it hands out the wait for one more and counts it at `now`, and
/// otherwise it hands out nothing.
pub open spec fn spec_next_delay(before: Seq<u64>, now: u64, delay: Option<u64>, after: Seq<u64>) -> bool {
    let kept = spec_kept(before, now);
    if kept.len() >= MAX_ATTEMPTS {
        delay is None && after == kept
    } else {
        delay == Some(spec_delay_ms(kept.len())) && after == kept.push(now)
    }
}

/// The delay before the next attempt for `earlier` attempts in the window.
pub fn delay_ms(earlier: usize) -> (delay: u64)
    requires
        earlier < MAX_ATTEMPTS,
    ensures
        delay == spec_delay_ms(earlier as nat),
{
    if earlier == 0 {
        1_000
    } else if earlier == 1 {
        5_000
    } else if earlier == 2 {
        15_000
    } else if earlier == 3 {
        30_000
    } else {
        60_000
    }
}

/// Remembers when recent attempts were made.
#[derive(Debug)]
pub struct Reconnector {
    attempts: Vec<u64>,
}

impl View for Reconnector {
    type V = Seq<u64>;

    /// The times of the attempts that were counted, oldest first.
    closed spec fn view(&self) -> Seq<u64> {
        self.attempts@
    }
}

impl Reconnector {
    #[verifier::type_invariant]
    closed spec fn within_budget(self) -> bool {
        self.attempts@.len() <= MAX_ATTEMPTS
    }

    /// Drops the attempts that left the window, then either hands out the wait
    /// before one more attempt (and counts it, made at `now`) or, when the
    /// budget is spent, `None`.
    pub fn next_delay(&mut self, now: u64) -> (delay: Option<u64>)
        ensures
            final(self)@.len() <= MAX_ATTEMPTS,
            spec_next_delay(old(self)@, now, delay, final(self)@),
    {
        proof {
            use_type_invariant(&*self);
        }
        let ghost pred = in_window_at(now);
        let mut kept: Vec<u64> = Vec::new();
        let n = self.attempts.len();
        let mut i: usize = 0;
        while i < n
            invariant
                n == self.attempts@.len(),
                n <= MAX_ATTEMPTS,
                i <= n,
                kept@ == self.attempts@.take(i as int).filter(pred),
                kept@.len() <= i,
                pred == in_window_at(now),
            decreases n - i,
        {
            let at = self.attempts[i];
            let recent = if at <= now {
                now - at < WINDOW_MS
            } else {
                true
            };
            proof {
                assert(recent == pred(at));
                self.attempts@.take(i as int).lemma_filter_push(at, pred);
                assert(self.attempts@.take(i as int).push(at) =~= self.attempts@.take(i + 1));
            }
            if recent {
                kept.push(at);
            }
            i = i + 1;
        }
        proof {
            assert(self.attempts@.take(n as int) =~= self.attempts@);
        }
        if kept.len() >= MAX_ATTEMPTS {
            self.attempts = kept;
            return None;
        }
        let delay = delay_ms(kept.len());
        kept.push(now);
        self.attempts = kept;
        Some(delay)
    }

    /// Forgets every attempt: the whole budget is available again.
    pub fn reset(&mut self)
        ensures
            final(self)@ == Seq::<u64>::empty(),
    {
        self.attempts = Vec::new();
    }
}

impl Default for Reconnector {
    fn default() -> (fresh: Self)
        ensures
            fresh@ == Seq::<u64>::empty(),
    {
        Reconnector { attempts: Vec::new() }
    }
}

} // verus!
