//! Broadcast event bus: bounded fan-out with per-subscriber cursors.
//!
//! The bus keeps a ring of the most recent events, up to a capacity fixed
//! at construction, together with the count of all events ever emitted.
//! Each subscription is an independent cursor into that emission sequence:
//! it observes every event emitted after it was created, in emission order,
//! and a subscriber that falls behind the ring is told how much it missed
//! and resumes at the oldest retained event instead of being terminated.

use vstd::prelude::*;
use vstd::std_specs::vec::vec_index;

use crate::events::{Event, EventV};

verus! {

/// Ring capacity used by `EventBus::new`.
pub const EVENT_CHANNEL_CAPACITY: usize = 256;

/// The index of the oldest event still retained by a ring of capacity
/// `cap` after `hlen` emissions.
pub open spec fn oldest_index(hlen: nat, cap: nat) -> nat {
    if hlen <= cap {
        0
    } else {
        (hlen - cap) as nat
    }
}

/// One receive step of a subscriber, over the bus model: `hlen` events
/// emitted so far, ring capacity `cap`, bus closed or not, subscriber at
/// `cursor`.
pub enum RecvStep {
    /// The event at this emission index is delivered; the cursor advances
    /// to the second component.
    Got(int, nat),
    /// The subscriber lagged behind the ring; the cursor jumps forward to
    /// the oldest retained event.
    Lag(nat),
    /// Nothing new has been emitted yet.
    Idle,
    /// The bus is closed and fully drained.
    Done,
}

/// What one receive does, as a function of the bus model and the cursor.
pub open spec fn recv_step(hlen: nat, cap: nat, closed: bool, cursor: nat) -> RecvStep {
    let oldest = oldest_index(hlen, cap);
    if cursor < oldest {
        RecvStep::Lag(oldest)
    } else if cursor == hlen {
        if closed {
            RecvStep::Done
        } else {
            RecvStep::Idle
        }
    } else {
        RecvStep::Got(cursor as int, (cursor + 1) as nat)
    }
}

/// The outcome of one `recv` call.
pub enum RecvOutcome {
    /// The next event, in emission order.
    Received(Event),
    /// Nothing available right now; try again later.
    Empty,
    /// The subscriber fell behind and missed this many events; it resumes
    /// at the oldest retained event.
    Lagged(u64),
    /// The bus is closed and no events remain.
    Closed,
}

/// An independent receive cursor into the bus's emission sequence.
pub struct Subscription {
    cursor: u64,
}

impl Subscription {
    /// The emission index this subscription will read next.
    pub closed spec fn cursor_spec(&self) -> nat {
        self.cursor as nat
    }
}

/// Bounded broadcast bus.
pub struct EventBus {
    ring: Vec<Event>,
    capacity: usize,
    emitted: u64,
    closed: bool,
    history: Ghost<Seq<EventV>>,
}

impl EventBus {
    /// All events ever emitted, in order, as mathematical values.
    pub closed spec fn history(&self) -> Seq<EventV> {
        self.history@
    }

    /// The ring capacity fixed at construction.
    pub closed spec fn capacity_spec(&self) -> nat {
        self.capacity as nat
    }

    /// Whether the bus has been closed.
    pub closed spec fn is_closed(&self) -> bool {
        self.closed
    }

    /// Internal consistency: the ring holds exactly the most recent
    /// `min(capacity, emitted)` events of the emission sequence.
    pub closed spec fn wf(&self) -> bool {
        &&& self.capacity >= 1
        &&& self.emitted == self.history@.len()
        &&& self.ring@.len() == if self.history@.len() <= self.capacity {
            self.history@.len()
        } else {
            self.capacity as nat
        }
        &&& forall|i: int|
            0 <= i < self.ring@.len() ==> self.ring@[i]@ == self.history@[self.history@.len()
                - self.ring@.len() + i]
    }

    /// A subscription is valid for this bus when its cursor does not run
    /// ahead of what was emitted.
    pub open spec fn valid_subscription(&self, s: Subscription) -> bool {
        s.cursor_spec() <= self.history().len()
    }

    /// A bus with the default ring capacity.
    pub fn new() -> (r: Self)
        ensures
            r.wf(),
            r.history() == Seq::<EventV>::empty(),
            r.capacity_spec() == EVENT_CHANNEL_CAPACITY as nat,
            !r.is_closed(),
    {
        EventBus::with_capacity(EVENT_CHANNEL_CAPACITY)
    }

    /// A bus with the given ring capacity.
    pub fn with_capacity(capacity: usize) -> (r: Self)
        requires
            capacity >= 1,
        ensures
            r.wf(),
            r.history() == Seq::<EventV>::empty(),
            r.capacity_spec() == capacity as nat,
            !r.is_closed(),
    {
        EventBus {
            ring: Vec::new(),
            capacity,
            emitted: 0,
            closed: false,
            history: Ghost(Seq::empty()),
        }
    }

    /// Emit one event: it is appended to the emission sequence, evicting
    /// the oldest retained event once the ring is full. Emitting never
    /// blocks and never fails; only subscribers that lag pay for it.
    pub fn emit(&mut self, event: Event)
        requires
            old(self).wf(),
            old(self).history().len() < u64::MAX,
        ensures
            final(self).wf(),
            final(self).history() == old(self).history().push(event@),
            final(self).capacity_spec() == old(self).capacity_spec(),
            final(self).is_closed() == old(self).is_closed(),
    {
        let ghost ev = event@;
        if self.ring.len() == self.capacity {
            self.ring.remove(0);
        }
        self.ring.push(event);
        self.emitted = self.emitted + 1;
        proof {
            self.history@ = self.history@.push(ev);
        }
    }

    /// Close the bus: subscribers drain what remains, then see `Closed`.
    pub fn close(&mut self)
        requires
            old(self).wf(),
        ensures
            final(self).wf(),
            final(self).is_closed(),
            final(self).history() == old(self).history(),
            final(self).capacity_spec() == old(self).capacity_spec(),
    {
        self.closed = true;
    }

    /// How many events have ever been emitted.
    pub fn emitted_count(&self) -> (r: u64)
        requires
            self.wf(),
        ensures
            r == self.history().len(),
    {
        self.emitted
    }

    /// A new subscription: it starts at the current end of the emission
    /// sequence, so it observes exactly the events emitted after this call.
    pub fn subscribe(&self) -> (s: Subscription)
        requires
            self.wf(),
        ensures
            s.cursor_spec() == self.history().len(),
            self.valid_subscription(s),
    {
        Subscription { cursor: self.emitted }
    }

    /// Receive the next event for one subscription, without blocking.
    ///
    /// The outcome follows `recv_step` on the bus model: the next retained
    /// event in emission order, `Empty` when the subscriber has seen
    /// everything and the bus is open, `Closed` when it has seen everything
    /// and the bus is closed, or `Lagged` with the number of missed events
    /// when the cursor fell out of the ring.
    pub fn recv(&self, sub: &mut Subscription) -> (r: RecvOutcome)
        requires
            self.wf(),
            self.valid_subscription(*old(sub)),
        ensures
            self.valid_subscription(*final(sub)),
            match recv_step(
                self.history().len(),
                self.capacity_spec(),
                self.is_closed(),
                old(sub).cursor_spec(),
            ) {
                RecvStep::Got(i, nc) => {
                    &&& r matches RecvOutcome::Received(e) && e@ == self.history()[i]
                    &&& final(sub).cursor_spec() == nc
                },
                RecvStep::Lag(nc) => {
                    &&& r matches RecvOutcome::Lagged(n) && n == nc - old(sub).cursor_spec()
                    &&& final(sub).cursor_spec() == nc
                },
                RecvStep::Idle => r is Empty && final(sub).cursor_spec() == old(
                    sub,
                ).cursor_spec(),
                RecvStep::Done => r is Closed && final(sub).cursor_spec() == old(
                    sub,
                ).cursor_spec(),
            },
    {
        let ring_len = self.ring.len() as u64;
        let oldest = self.emitted - ring_len;
        if sub.cursor < oldest {
            let missed = oldest - sub.cursor;
            sub.cursor = oldest;
            RecvOutcome::Lagged(missed)
        } else if sub.cursor == self.emitted {
            if self.closed {
                RecvOutcome::Closed
            } else {
                RecvOutcome::Empty
            }
        } else {
            let idx = (sub.cursor - oldest) as usize;
            let event = vec_index(&self.ring, idx).clone();
            sub.cursor = sub.cursor + 1;
            RecvOutcome::Received(event)
        }
    }
}

/// Well-formedness carries the construction-time bound the receive lemmas
/// need: the ring capacity of a bus is at least one.
pub proof fn lemma_wf_capacity(bus: &EventBus)
    requires
        bus.wf(),
    ensures
        bus.capacity_spec() >= 1,
{
}

/// The emission indices a subscriber observes over `k` consecutive receive
/// calls with no emissions in between, starting at `cursor`.
pub open spec fn observed_from(hlen: nat, cap: nat, closed: bool, cursor: nat, k: nat) -> Seq<int>
    decreases k,
{
    if k == 0 {
        Seq::<int>::empty()
    } else {
        match recv_step(hlen, cap, closed, cursor) {
            RecvStep::Got(i, nc) => seq![i] + observed_from(hlen, cap, closed, nc, (k - 1) as nat),
            RecvStep::Lag(nc) => observed_from(hlen, cap, closed, nc, (k - 1) as nat),
            RecvStep::Idle => Seq::<int>::empty(),
            RecvStep::Done => Seq::<int>::empty(),
        }
    }
}

/// A subscriber whose cursor is within the retained window observes the
/// remaining events exactly once each, in emission order: `k` receive
/// calls deliver exactly emission indices `cursor, cursor + 1, ...`.
pub proof fn lemma_observes_in_order(hlen: nat, cap: nat, closed: bool, cursor: nat, k: nat)
    requires
        cap >= 1,
        oldest_index(hlen, cap) <= cursor,
        cursor + k <= hlen,
    ensures
        observed_from(hlen, cap, closed, cursor, k) =~= Seq::new(k, |j: int| cursor + j),
    decreases k,
{
    if k == 0 {
    } else {
        lemma_observes_in_order(hlen, cap, closed, (cursor + 1) as nat, (k - 1) as nat);
    }
}

/// A subscriber that subscribes when `n` events have already been emitted
/// (its cursor starts at `n`) observes none of those first `n` events: every
/// index it is ever delivered is at least `n`, whether or not it lags.
pub proof fn lemma_no_replay(hlen: nat, cap: nat, closed: bool, cursor: nat, n: nat, k: nat)
    requires
        cap >= 1,
        n <= cursor,
    ensures
        forall|x: int|
            observed_from(hlen, cap, closed, cursor, k).contains(x) ==> x >= n,
    decreases k,
{
    if k == 0 {
    } else {
        match recv_step(hlen, cap, closed, cursor) {
            RecvStep::Got(i, nc) => {
                lemma_no_replay(hlen, cap, closed, nc, n, (k - 1) as nat);
                let obs = observed_from(hlen, cap, closed, cursor, k);
                let tail = observed_from(hlen, cap, closed, nc, (k - 1) as nat);
                assert(obs == seq![i] + tail);
                assert(i == cursor as int);
                assert forall|x: int| obs.contains(x) implies x >= n by {
                    let idx = choose|idx: int| 0 <= idx < obs.len() && obs[idx] == x;
                    if idx == 0 {
                        assert(x == i);
                    } else {
                        assert(tail[idx - 1] == x);
                        assert(tail.contains(x));
                    }
                }
            },
            RecvStep::Lag(nc) => {
                lemma_no_replay(hlen, cap, closed, nc, n, (k - 1) as nat);
                assert(observed_from(hlen, cap, closed, cursor, k) == observed_from(
                    hlen,
                    cap,
                    closed,
                    nc,
                    (k - 1) as nat,
                ));
            },
            RecvStep::Idle => {
                assert(observed_from(hlen, cap, closed, cursor, k) == Seq::<int>::empty());
            },
            RecvStep::Done => {
                assert(observed_from(hlen, cap, closed, cursor, k) == Seq::<int>::empty());
            },
        }
    }
}

/// A subscriber that subscribed before any emission and stays within the
/// ring observes every emitted event exactly once, in emission order.
pub proof fn lemma_subscriber_sees_all(hlen: nat, cap: nat, closed: bool)
    requires
        cap >= 1,
        hlen <= cap,
    ensures
        observed_from(hlen, cap, closed, 0, hlen) =~= Seq::new(hlen, |j: int| j),
{
    lemma_observes_in_order(hlen, cap, closed, 0, hlen);
    assert(Seq::new(hlen, |j: int| 0 + j) =~= Seq::new(hlen, |j: int| j));
}

} // verus!
