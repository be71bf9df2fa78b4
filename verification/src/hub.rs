//! The broadcast hub: a bounded ring buffer of published events with any
//! number of independent read cursors.
//!
//! Publishing appends to the buffer and evicts the oldest entry once the
//! buffer is full, so a publisher is never slowed down by a slow reader.
//! Each cursor is a private read position; a cursor that fell behind the
//! oldest retained entry is told exactly how many events it missed and
//! resumes at the oldest retained one.

use vstd::prelude::*;

verus! {

/// What one call to [`Hub::receive`] can yield.
pub enum Recv {
    /// The next unread event's payload, in publish order.
    Event(String),
    /// The cursor fell behind: this many events were evicted unread.
    /// The cursor has been moved forward to the oldest retained event.
    Lagged(u64),
    /// No unread event is available yet; the caller should wait for a
    /// publish and try again.
    Pending,
    /// The hub has shut down; no event will ever follow.
    Closed,
}

/// A subscriber's private read position: the index (into the hub's complete
/// publish history) of the next event this subscriber has not yet read.
pub struct Cursor {
    pub pos: u64,
}

/// The shared broadcast hub.
///
/// `history` is the ghost record of every payload ever published, in publish
/// order; `buffer` holds the most recent `capacity` (or fewer) of them, and
/// `base` says how many have been evicted, i.e. `buffer[i]` is publication
/// number `base + i`.
pub struct Hub {
    pub buffer: Vec<String>,
    pub base: u64,
    pub capacity: usize,
    pub closed: bool,
    pub history: Ghost<Seq<Seq<char>>>,
}

impl Hub {
    /// Total number of events ever published: one past the newest.
    pub open spec fn head(&self) -> int {
        self.history@.len() as int
    }

    /// Publication number of the oldest event still retained in the buffer.
    pub open spec fn oldest(&self) -> int {
        self.head() - self.buffer@.len()
    }

    /// Structural invariant tying the buffer to the publish history.
    pub open spec fn wf(&self) -> bool {
        &&& self.capacity > 0
        &&& self.history@.len() <= u64::MAX
        &&& self.base + self.buffer@.len() == self.history@.len()
        &&& self.buffer@.len() == vstd::math::min(self.history@.len() as int, self.capacity as int)
        &&& forall|i: int|
            0 <= i < self.buffer@.len() ==> self.buffer@[i]@ == self.history@[self.base + i]
    }

    /// A cursor never points past the newest publication.
    pub open spec fn cursor_ok(&self, c: Cursor) -> bool {
        c.pos <= self.head()
    }

    /// A fresh hub: empty buffer, nothing published, open for business.
    pub fn new(capacity: usize) -> (h: Hub)
        requires
            capacity > 0,
        ensures
            h.wf(),
            h.capacity == capacity,
            !h.closed,
            h.head() == 0,
    {
        Hub {
            buffer: Vec::new(),
            base: 0,
            capacity,
            closed: false,
            history: Ghost(Seq::empty()),
        }
    }

    /// Accept one event. Never fails and never waits on any reader: if the
    /// buffer is full the oldest entry is evicted to make room, and only
    /// cursors still behind that entry will ever notice (as a lag report).
    pub fn publish(&mut self, payload: String)
        requires
            old(self).wf(),
            old(self).history@.len() < u64::MAX,
        ensures
            final(self).wf(),
            final(self).history@ == old(self).history@.push(payload@),
            final(self).capacity == old(self).capacity,
            final(self).closed == old(self).closed,
            final(self).head() == old(self).head() + 1,
    {
        proof {
            self.history@ = self.history@.push(payload@);
        }
        if self.buffer.len() == self.capacity {
            self.buffer.remove(0);
            self.base = self.base + 1;
        }
        self.buffer.push(payload);
    }

    /// Create a cursor positioned at the current tail: a new subscriber sees
    /// only events published after it joined.
    pub fn subscribe(&self) -> (c: Cursor)
        requires
            self.wf(),
        ensures
            c.pos == self.head(),
            self.cursor_ok(c),
    {
        Cursor { pos: self.base + self.buffer.len() as u64 }
    }

    /// Shut the hub down: every cursor's next receive reports `Closed`.
    pub fn close(&mut self)
        requires
            old(self).wf(),
        ensures
            final(self).wf(),
            final(self).closed,
            final(self).history@ == old(self).history@,
            final(self).capacity == old(self).capacity,
    {
        self.closed = true;
    }

    /// Fetch the next unread item for cursor `c`. The hub itself is never
    /// changed: only the cursor handed in moves, so one reader cannot
    /// disturb another.
    pub fn receive(&self, c: &mut Cursor) -> (r: Recv)
        requires
            self.wf(),
            self.cursor_ok(*old(c)),
        ensures
            self.cursor_ok(*final(c)),
            final(c).pos == self.spec_next_pos(old(c).pos as int),
            self.closed ==> r is Closed,
            !self.closed && old(c).pos == self.head() ==> r is Pending,
            !self.closed && old(c).pos < self.oldest() ==> (r matches Recv::Lagged(k)
                && k == self.oldest() - old(c).pos),
            !self.closed && self.oldest() <= old(c).pos < self.head() ==> (r matches Recv::Event(p)
                && p@ == self.history@[old(c).pos as int]),
    {
        if self.closed {
            Recv::Closed
        } else {
            let head: u64 = self.base + self.buffer.len() as u64;
            if c.pos == head {
                Recv::Pending
            } else if c.pos < self.base {
                let skipped: u64 = self.base - c.pos;
                c.pos = self.base;
                Recv::Lagged(skipped)
            } else {
                let idx: usize = (c.pos - self.base) as usize;
                let payload: String = self.buffer[idx].clone();
                c.pos = c.pos + 1;
                Recv::Event(payload)
            }
        }
    }

    /// Where a cursor at position `pos` stands after one receive.
    pub open spec fn spec_next_pos(&self, pos: int) -> int {
        if self.closed {
            pos
        } else if pos == self.head() {
            pos
        } else if pos < self.oldest() {
            self.oldest()
        } else {
            pos + 1
        }
    }

    /// The payloads a cursor at `pos` observes over its next `k` receives,
    /// as long as each receive yields an event.
    pub open spec fn spec_drain(&self, pos: int, k: nat) -> Seq<Seq<char>>
        decreases k,
    {
        if k == 0 {
            Seq::empty()
        } else if !self.closed && self.oldest() <= pos < self.head() {
            seq![self.history@[pos]] + self.spec_drain(pos + 1, (k - 1) as nat)
        } else {
            Seq::empty()
        }
    }

    /// Ordering: a cursor that is within the retained window observes the
    /// next `k` published events exactly, in publish order, with no gap and
    /// no reordering.
    pub proof fn lemma_ordering(&self, pos: int, k: nat)
        requires
            self.wf(),
            !self.closed,
            self.oldest() <= pos,
            pos + k <= self.head(),
        ensures
            self.spec_drain(pos, k) == self.history@.subrange(pos, pos + k),
        decreases k,
    {
        if k == 0 {
            assert(self.spec_drain(pos, k) =~= self.history@.subrange(pos, pos + k));
        } else {
            self.lemma_ordering(pos + 1, (k - 1) as nat);
            assert(self.spec_drain(pos, k) =~= self.history@.subrange(pos, pos + k));
        }
    }

    /// Overflow: a cursor that fell behind the retained window is told, in a
    /// single lag report, exactly how many events it failed to observe; it
    /// resumes at the oldest retained event, and since positions only ever
    /// move forward, none of the skipped events is ever delivered again.
    pub proof fn lemma_overflow(&self, pos: int)
        requires
            self.wf(),
            !self.closed,
            0 <= pos < self.oldest(),
        ensures
            // the single lag report counts every unobserved event
            self.spec_next_pos(pos) == self.oldest(),
            // reading resumes at the first event after the skipped ones
            self.oldest() < self.head() ==> self.spec_drain(self.spec_next_pos(pos), 1)
                == seq![self.history@[self.oldest()]],
    {
        if self.oldest() < self.head() {
            assert(self.spec_drain(self.oldest() + 1, 0) =~= Seq::<Seq<char>>::empty());
            assert(self.spec_drain(self.oldest(), 1) =~= seq![self.history@[self.oldest()]]);
        }
    }

    /// A cursor's position never moves backwards, so an event that was once
    /// behind the cursor (read or skipped) is never delivered to it again.
    pub proof fn lemma_pos_monotone(&self, pos: int)
        requires
            self.wf(),
            0 <= pos <= self.head(),
        ensures
            self.spec_next_pos(pos) >= pos,
            self.spec_next_pos(pos) <= self.head(),
    {
    }

    /// Isolation: what a cursor observes is a function of the hub's state
    /// and that cursor's own position alone. Together with `receive` taking
    /// the hub by shared reference (a receive mutates nothing but the cursor
    /// handed in) and `publish`'s contract mentioning no cursor, this says
    /// that one reader falling behind, racing ahead or disappearing cannot
    /// change what any other reader observes.
    pub proof fn lemma_isolation(&self, pos_a: int, pos_b: int, k: nat)
        requires
            pos_a == pos_b,
        ensures
            self.spec_drain(pos_a, k) == self.spec_drain(pos_b, k),
            self.spec_next_pos(pos_a) == self.spec_next_pos(pos_b),
    {
    }

    /// Publishing is invisible to deliveries already in flight: after a
    /// publish, a cursor still within the retained window observes exactly
    /// the events it was going to observe before, in the same order — a new
    /// event is only ever appended after them, never inserted, reordered or
    /// substituted.
    pub proof fn lemma_publish_preserves_pending(pre: Hub, post: Hub, payload: Seq<char>, pos: int, k: nat)
        requires
            pre.wf(),
            post.wf(),
            !pre.closed,
            !post.closed,
            post.history@ == pre.history@.push(payload),
            post.capacity == pre.capacity,
            post.oldest() <= pos,
            pos + k <= pre.head(),
        ensures
            post.spec_drain(pos, k) == pre.spec_drain(pos, k),
    {
        assert(pre.oldest() <= post.oldest());
        pre.lemma_ordering(pos, k);
        post.lemma_ordering(pos, k);
        assert(post.history@.subrange(pos, pos + k) =~= pre.history@.subrange(pos, pos + k));
    }

    /// Shutdown: once the hub is closed, every cursor — wherever it stands —
    /// gets `Closed` from its very next receive and is never moved or handed
    /// another event.
    pub proof fn lemma_shutdown(&self, pos: int, k: nat)
        requires
            self.closed,
        ensures
            self.spec_next_pos(pos) == pos,
            self.spec_drain(pos, k) == Seq::<Seq<char>>::empty(),
    {
    }
}

} // verus!
