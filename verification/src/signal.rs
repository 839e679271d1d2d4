//! The coalescing completion signal: one producer, many observers, no
//! queue.
//!
//! A dependency edge is encoded as a shared slot holding a generation
//! counter, advanced once per publish, together with one cursor per
//! downstream observer remembering the last generation that observer saw.
//! "Wait for change" resolves as soon as the slot's generation differs
//! from the cursor's remembered one, however many publishes happened in
//! between: publishing overwrites the latest state, it never enqueues one
//! entry per call, so a producer is never blocked by slow observers and no
//! backlog of stale intermediate states can build up.

use vstd::prelude::*;

verus! {

/// The shared slot of one system's completion signal: how many times the
/// producer has published so far.
#[derive(Clone, Copy, Debug, PartialEq, Eq, Structural)]
pub struct Signal {
    /// The current generation: the number of publishes so far.
    pub generation: u64,
}

/// One downstream observer's cursor over a signal: the last generation it
/// observed. Several dependents may each hold an independent cursor over
/// the same signal.
#[derive(Clone, Copy, Debug, PartialEq, Eq, Structural)]
pub struct Cursor {
    /// The generation this observer saw last.
    pub seen: u64,
}

impl Signal {
    /// A fresh signal that has never been published to.
    pub fn new() -> (s: Signal)
        ensures
            s.generation == 0,
    {
        Signal { generation: 0 }
    }

    /// Publish a completion: overwrite the latest state by advancing the
    /// generation. There is no queue and no observer to wait for, so
    /// publishing itself never blocks.
    pub fn publish(&mut self)
        requires
            old(self).generation < u64::MAX,
        ensures
            final(self).generation == old(self).generation + 1,
    {
        self.generation = self.generation + 1;
    }

    /// A new observer starts caught up with the current state: its first
    /// wait resolves only once the producer publishes again.
    pub fn subscribe(&self) -> (c: Cursor)
        ensures
            c.seen == self.generation,
            !c.sees_change(*self),
    {
        Cursor { seen: self.generation }
    }
}

impl Cursor {
    /// The signal has changed since this cursor last observed it.
    pub open spec fn sees_change(self, s: Signal) -> bool {
        self.seen != s.generation
    }

    /// Whether a wait on `s` would resolve right now for this cursor.
    pub fn has_changed(&self, s: &Signal) -> (r: bool)
        ensures
            r == self.sees_change(*s),
    {
        self.seen != s.generation
    }

    /// One attempt of "wait until the state has changed since my last
    /// observation", resolved against the current state of the signal: if
    /// the signal has changed, the cursor catches up to the current
    /// generation and the wait resolves; otherwise the cursor is left as
    /// it is and the caller would suspend until the next publish.
    pub fn check(&mut self, s: &Signal) -> (resolved: bool)
        ensures
            resolved == old(self).sees_change(*s),
            *final(self) == if resolved { Cursor { seen: s.generation } } else { *old(self) },
    {
        if self.seen != s.generation {
            self.seen = s.generation;
            true
        } else {
            false
        }
    }
}

/// Coalescing: if the producer published any number `n >= 1` of times
/// since a cursor last caught up with the signal, the cursor's wait
/// resolves, and after the single observation that resolves it the cursor
/// is caught up again: a second wait would suspend. The wait therefore
/// resolves exactly once, not `n` times, and no backlog remains.
pub proof fn lemma_wait_resolves_exactly_once(c: Cursor, before: Signal, after: Signal, n: nat)
    requires
        c.seen == before.generation,
        n >= 1,
        after.generation == before.generation + n,
    ensures
        c.sees_change(after),
        !(Cursor { seen: after.generation }).sees_change(after),
{
}

/// A cursor that is caught up sees no change: with no publish since its
/// last observation, a wait on the signal suspends instead of spinning.
pub proof fn lemma_no_publish_no_wakeup(c: Cursor, s: Signal)
    requires
        c.seen == s.generation,
    ensures
        !c.sees_change(s),
{
}

} // verus!
