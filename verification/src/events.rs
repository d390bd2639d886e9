//! The ordered event stream consumed by the control loop.
//!
//! Two independently timed producers — a keyboard reader and a fixed-period
//! ticker — feed one queue; the consumer takes events in arrival order,
//! with no priority between the sources. The queue is bounded: when the
//! consumer falls behind, excess ticks are coalesced rather than buffered
//! without bound — a tick is an idempotent redraw hint and safe to drop —
//! while an input event is never dropped.

use vstd::prelude::*;

verus! {

/// The identity of a pressed key, as far as the core reads it.
#[derive(Clone, Copy, Debug, PartialEq, Eq, Structural)]
pub enum Key {
    Char(char),
    Up,
    Down,
    Left,
    Right,
    /// Any key the core does not react to.
    Other,
}

/// One event of the merged stream: a key press, or a periodic tick.
#[derive(Clone, Copy, Debug, PartialEq, Eq, Structural)]
pub enum Event {
    Input(Key),
    Tick,
}

/// The default tick period, in milliseconds.
pub const DEFAULT_TICK_MS: u64 = 250;

/// Whether a tick is already waiting in the queue.
pub open spec fn has_pending_tick(q: Seq<Event>) -> bool {
    exists|i: int| 0 <= i < q.len() && q[i] == Event::Tick
}

/// The merged, ordered event queue between the two producers and the
/// control loop.
pub struct EventQueue {
    buf: Vec<Event>,
    cap: usize,
}

impl EventQueue {
    /// The queued events, oldest first.
    pub closed spec fn events(&self) -> Seq<Event> {
        self.buf@
    }

    /// The bound past which ticks are coalesced.
    pub closed spec fn cap_spec(&self) -> nat {
        self.cap as nat
    }

    pub open spec fn wf(&self) -> bool {
        0 < self.cap_spec()
    }

    /// An empty queue with the given bound.
    pub fn new(cap: usize) -> (q: Self)
        requires
            0 < cap,
        ensures
            q.wf(),
            q.events() == Seq::<Event>::empty(),
            q.cap_spec() == cap,
    {
        EventQueue { buf: Vec::new(), cap }
    }

    /// Enqueues a key press. An input event is never dropped: it always
    /// goes to the back of the queue, behind everything that arrived
    /// before it.
    pub fn push_input(&mut self, key: Key)
        ensures
            final(self).events() == old(self).events().push(Event::Input(key)),
            final(self).cap_spec() == old(self).cap_spec(),
    {
        self.buf.push(Event::Input(key));
    }

    /// Enqueues a tick, unless one is already waiting or the queue has
    /// reached its bound: a redraw hint that is already pending, or that
    /// the consumer cannot keep up with, is coalesced into nothing.
    /// Returns whether the tick was kept.
    #[verifier::loop_isolation(false)]
    pub fn push_tick(&mut self) -> (kept: bool)
        ensures
            final(self).cap_spec() == old(self).cap_spec(),
            kept == (!has_pending_tick(old(self).events()) && old(self).events().len() < old(
                self,
            ).cap_spec()),
            final(self).events() == if kept {
                old(self).events().push(Event::Tick)
            } else {
                old(self).events()
            },
    {
        if self.buf.len() >= self.cap {
            return false;
        }
        let mut i: usize = 0;
        while i < self.buf.len()
            invariant
                i <= self.buf@.len(),
                forall|j: int| 0 <= j < i ==> self.buf@[j] != Event::Tick,
        decreases self.buf@.len() - i,
        {
            if let Event::Tick = self.buf[i] {
                return false;
            }
            i = i + 1;
        }
        self.buf.push(Event::Tick);
        true
    }

    /// Takes the next event in arrival order, or nothing when the queue is
    /// empty.
    pub fn pop_event(&mut self) -> (r: Option<Event>)
        ensures
            final(self).cap_spec() == old(self).cap_spec(),
            match r {
                Some(ev) => {
                    &&& old(self).events().len() > 0
                    &&& ev == old(self).events()[0]
                    &&& final(self).events() == old(self).events().skip(1)
                },
                None => {
                    &&& old(self).events().len() == 0
                    &&& final(self).events() == old(self).events()
                },
            },
    {
        if self.buf.len() == 0 {
            None
        } else {
            let ev = self.buf.remove(0);
            proof {
                assert(old(self).events().remove(0) =~= old(self).events().skip(1));
            }
            Some(ev)
        }
    }
}

} // verus!
