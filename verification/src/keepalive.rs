//! The keep-alive emitter: decides when an idle stream owes the client a
//! synthetic heartbeat frame, so intermediaries never see a silent
//! connection long enough to reclaim it.
//!
//! The emitter keeps one deadline. Sending a data frame pushes the deadline
//! a full interval out; whenever the deadline passes without data, a
//! heartbeat is due, and each emitted heartbeat advances the deadline by
//! exactly one interval so the cadence never drifts.

use vstd::prelude::*;

verus! {

use vstd::arithmetic::div_mod::{lemma_basic_div, lemma_div_plus_one};

/// State of one stream's keep-alive emitter.
pub struct KeepAlive {
    /// Milliseconds of silence after which a heartbeat is owed.
    pub interval: u64,
    /// The time at which the next heartbeat falls due.
    pub next_due: u64,
}

impl KeepAlive {
    pub open spec fn wf(&self) -> bool {
        self.interval > 0
    }

    /// How many heartbeats are due at time `now`: one once the deadline has
    /// passed, plus one more for every further full interval of silence.
    pub open spec fn due_count(&self, now: u64) -> int {
        if now < self.next_due {
            0
        } else {
            (now - self.next_due) / (self.interval as int) + 1
        }
    }

    pub fn new(interval: u64, now: u64) -> (k: KeepAlive)
        requires
            interval > 0,
            now + interval <= u64::MAX,
        ensures
            k.wf(),
            k.interval == interval,
            k.next_due == now + interval,
    {
        KeepAlive { interval, next_due: now + interval }
    }

    /// A data frame went out at `now`: the stream is not idle, push the
    /// deadline a full interval out.
    pub fn note_activity(&mut self, now: u64)
        requires
            old(self).wf(),
            now + old(self).interval <= u64::MAX,
        ensures
            final(self).wf(),
            final(self).interval == old(self).interval,
            final(self).next_due == now + old(self).interval,
    {
        self.next_due = now + self.interval;
    }

    /// Is at least one heartbeat due at `now`?
    pub fn due(&self, now: u64) -> (b: bool)
        requires
            self.wf(),
        ensures
            b == (now >= self.next_due),
            b == (self.due_count(now) > 0),
    {
        proof {
            if now >= self.next_due {
                assert(self.due_count(now) >= 0 + 1) by {
                    vstd::arithmetic::div_mod::lemma_div_pos_is_pos(
                        now - self.next_due,
                        self.interval as int,
                    );
                }
            }
        }
        now >= self.next_due
    }

    /// Emit every heartbeat now due, advancing the deadline one full
    /// interval per heartbeat. Returns how many were emitted.
    pub fn emit_due(&mut self, now: u64) -> (n: u64)
        requires
            old(self).wf(),
            now <= u64::MAX - old(self).interval,
        ensures
            final(self).wf(),
            final(self).interval == old(self).interval,
            n == old(self).due_count(now),
            final(self).due_count(now) == 0,
            final(self).next_due == old(self).next_due + n * old(self).interval,
    {
        let mut n: u64 = 0;
        while now >= self.next_due
            invariant
                self.wf(),
                self.interval == old(self).interval,
                now <= u64::MAX - self.interval,
                old(self).due_count(now) == n + self.due_count(now),
                self.next_due == old(self).next_due + n * self.interval,
            decreases vstd::math::max(now - self.next_due + 1, 0),
        {
            proof {
                assert(n * self.interval <= now);
                assert(n < u64::MAX) by (nonlinear_arith)
                    requires
                        self.interval >= 1,
                        n * self.interval <= now,
                        now <= u64::MAX - self.interval,
                ;
                assert((n + 1) * self.interval == n * self.interval + self.interval)
                    by (nonlinear_arith);
                if now >= self.next_due + self.interval {
                    lemma_div_plus_one(now - self.next_due - self.interval, self.interval as int);
                } else {
                    lemma_basic_div(now - self.next_due, self.interval as int);
                }
            }
            self.next_due = self.next_due + self.interval;
            n = n + 1;
        }
        n
    }

    /// Heartbeat cadence: if the emitter was reset at time `t0` (deadline
    /// `t0 + interval`) and no data frame has gone out since, then by time
    /// `now` exactly `(now - t0) / interval` heartbeats are due — at least
    /// one per full interval of silence, none before the first interval has
    /// elapsed.
    pub proof fn lemma_heartbeat_cadence(k: KeepAlive, t0: u64, now: u64)
        requires
            k.wf(),
            k.next_due == t0 + k.interval,
            t0 <= now,
        ensures
            k.due_count(now) == (now - t0) / (k.interval as int),
    {
        let i = k.interval as int;
        if now < k.next_due {
            lemma_basic_div(now - t0, i);
        } else {
            lemma_div_plus_one(now - t0 - i, i);
        }
    }
}

} // verus!
