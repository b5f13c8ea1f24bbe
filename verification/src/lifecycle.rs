//! Client lifecycle coordinator: the state machine behind the event pump.
//!
//! The coordinator owns the callback registry, the broadcast bus and the
//! two state flags (`connected`, `shutdown requested`). The unverified
//! shell owns the native handle and the scheduler; each iteration of its
//! polling loop hands the raw poll outcome to `poll_step`, which makes
//! every decision: exit on shutdown, idle when nothing is pending, skip a
//! corrupt envelope, fail when the polling channel is unusable, or decode,
//! route and publish one event — in exactly the order events arrive.

use vstd::prelude::*;

use crate::bridge::{check_result, code_result_post, WM_OK};
use crate::bus::{EventBus, Subscription};
use crate::decode::{decode_envelope, decode_post, envelope_head_of};
use crate::error::Error;
use crate::events::{Event, EventV};
use crate::handlers::{route_of, Handlers, HandlersV};

verus! {

/// What one native poll produced, as the unverified shell reports it:
/// payload bytes, nothing pending, or a negative native result code.
pub enum PollResult {
    Data(Vec<u8>),
    Empty,
    ErrorCode(i32),
}

/// Classify one native poll return for the loop: a negative count is a
/// native error code, zero means nothing is pending, and a positive count
/// is the number of event bytes written at the front of the buffer, which
/// become the payload.
pub fn classify_poll(count: i32, buffer: &[u8]) -> (r: PollResult)
    requires
        count > 0 ==> count as int <= buffer@.len(),
    ensures
        count < 0 ==> r == PollResult::ErrorCode(count),
        count == 0 ==> r == PollResult::Empty,
        count > 0 ==> (r matches PollResult::Data(d) && d@ == buffer@.subrange(
            0,
            count as int,
        )),
{
    if count < 0 {
        PollResult::ErrorCode(count)
    } else if count == 0 {
        PollResult::Empty
    } else {
        let n = count as usize;
        let mut data: Vec<u8> = Vec::new();
        let mut i: usize = 0;
        while i < n
            invariant
                n <= buffer@.len(),
                0 <= i <= n,
                data@ == buffer@.subrange(0, i as int),
            decreases n - i,
        {
            data.push(buffer[i]);
            proof {
                assert(buffer@.subrange(0, i + 1) =~= buffer@.subrange(0, i as int).push(
                    buffer@[i as int],
                ));
            }
            i = i + 1;
        }
        PollResult::Data(data)
    }
}

/// What the polling loop must do next.
pub enum StepAction {
    /// Shutdown was requested: exit the loop cleanly.
    Stop,
    /// Nothing to do right now: idle briefly or until shutdown is signaled.
    Sleep,
    /// One corrupt envelope was skipped; continue with the next iteration.
    Skip(Error),
    /// The polling channel itself is unusable: exit with this error.
    Fail(Error),
    /// One event was decoded and published to the bus; invoke these
    /// handler tickets, in registration order, with the event.
    Dispatch { handler_ids: Vec<u64>, event: Event },
}

/// Coordinator for one client session.
pub struct Coordinator {
    /// Callback registry, dispatched on the polling path.
    pub handlers: Handlers,
    /// Broadcast bus, published on the polling path.
    pub bus: EventBus,
    /// Whether the client currently counts as connected; the unverified
    /// shell mirrors this flag into its lock-free atomic.
    pub connected: bool,
    /// Whether shutdown has been requested; level-triggered, never reset.
    pub shutdown: bool,
}

impl Coordinator {
    /// Whether the client currently counts as connected.
    pub open spec fn connected_spec(&self) -> bool {
        self.connected
    }

    /// Whether shutdown has been requested.
    pub open spec fn shutdown_spec(&self) -> bool {
        self.shutdown
    }

    /// Internal consistency of the owned bus.
    pub open spec fn wf(&self) -> bool {
        self.bus.wf()
    }

    /// Whether an event ends the connected state when the polling loop
    /// observes it.
    pub open spec fn disconnects(e: Event) -> bool {
        e is Disconnected || e is LoggedOut
    }

    /// Everything observable is unchanged between two coordinator states.
    pub open spec fn state_unchanged(pre: Coordinator, post: Coordinator) -> bool {
        &&& post.handlers@ == pre.handlers@
        &&& post.bus.history() == pre.bus.history()
        &&& post.bus.capacity_spec() == pre.bus.capacity_spec()
        &&& post.bus.is_closed() == pre.bus.is_closed()
        &&& post.connected_spec() == pre.connected_spec()
        &&& post.shutdown_spec() == pre.shutdown_spec()
    }

    /// A fresh, unconnected coordinator with empty registries.
    pub fn new() -> (r: Self)
        ensures
            r.wf(),
            r.handlers.wf(),
            !r.connected_spec(),
            !r.shutdown_spec(),
            r.bus.history() == Seq::<EventV>::empty(),
            !r.bus.is_closed(),
            r.handlers@ == (HandlersV {
                qr: Seq::<u64>::empty(),
                message: Seq::<u64>::empty(),
                connected: Seq::<u64>::empty(),
                disconnected: Seq::<u64>::empty(),
                receipt: Seq::<u64>::empty(),
                presence: Seq::<u64>::empty(),
            }),
    {
        Coordinator {
            handlers: Handlers::new(),
            bus: EventBus::new(),
            connected: false,
            shutdown: false,
        }
    }

    /// Whether the client is connected; readable at any time.
    pub fn is_connected(&self) -> (r: bool)
        ensures
            r == self.connected_spec(),
    {
        self.connected
    }

    /// Whether shutdown has been requested; the polling loop exits once
    /// this holds.
    pub fn shutdown_requested(&self) -> (r: bool)
        ensures
            r == self.shutdown_spec(),
    {
        self.shutdown
    }

    /// Record the outcome of the native connect call: on success the
    /// client becomes connected, on failure the state is left unchanged
    /// and the code's typed error is returned.
    pub fn apply_connect(&mut self, code: i32) -> (r: Result<(), Error>)
        requires
            old(self).wf(),
        ensures
            final(self).wf(),
            code_result_post(code, r),
            code == WM_OK ==> final(self).connected_spec(),
            code != WM_OK ==> final(self).connected_spec() == old(self).connected_spec(),
            final(self).shutdown_spec() == old(self).shutdown_spec(),
            final(self).handlers@ == old(self).handlers@,
            final(self).bus.history() == old(self).bus.history(),
            final(self).bus.capacity_spec() == old(self).bus.capacity_spec(),
            final(self).bus.is_closed() == old(self).bus.is_closed(),
    {
        match check_result(code) {
            Ok(()) => {
                self.connected = true;
                Ok(())
            },
            Err(e) => Err(e),
        }
    }

    /// Request shutdown and mark the client disconnected.
    ///
    /// Safe to call at any time, any number of times, before or after a
    /// successful connect: it never fails and always leaves
    /// `is_connected()` false and shutdown requested, touching nothing
    /// else. The best-effort native disconnect call is the shell's part
    /// and only happens when the native lock is immediately available.
    pub fn disconnect(&mut self)
        requires
            old(self).wf(),
        ensures
            final(self).wf(),
            !final(self).connected_spec(),
            final(self).shutdown_spec(),
            final(self).handlers@ == old(self).handlers@,
            final(self).bus.history() == old(self).bus.history(),
            final(self).bus.capacity_spec() == old(self).bus.capacity_spec(),
            final(self).bus.is_closed() == old(self).bus.is_closed(),
    {
        self.shutdown = true;
        self.connected = false;
    }

    /// A new pull subscription, observing exactly the events published
    /// after this call.
    pub fn events(&self) -> (s: Subscription)
        requires
            self.wf(),
        ensures
            s.cursor_spec() == self.bus.history().len(),
            self.bus.valid_subscription(s),
    {
        self.bus.subscribe()
    }

    /// Decide and perform one iteration of the polling loop.
    ///
    /// If shutdown was requested the loop stops. Otherwise: nothing
    /// pending means idle (never a busy spin); a native error code is
    /// fatal only when it reports an invalid handle — any other failure is
    /// retried on the next iteration; payload bytes are decoded, a corrupt
    /// envelope is skipped without touching any state, and a decoded event
    /// is published to the bus and handed back with the handler tickets it
    /// routes to — callbacks and subscribers both see events in arrival
    /// order.
    pub fn poll_step(&mut self, poll: PollResult) -> (r: StepAction)
        requires
            old(self).wf(),
            old(self).bus.history().len() < u64::MAX,
        ensures
            final(self).wf(),
            r is Stop <==> old(self).shutdown_spec(),
            r is Stop ==> Self::state_unchanged(*old(self), *final(self)),
            r is Sleep ==> Self::state_unchanged(*old(self), *final(self)),
            r matches StepAction::Skip(e) ==> {
                &&& Self::state_unchanged(*old(self), *final(self))
                &&& e matches Error::EventParse(_)
                &&& poll is Data
            },
            r matches StepAction::Fail(e) ==> {
                &&& e == Error::InvalidHandle
                &&& poll == PollResult::ErrorCode(crate::bridge::WM_ERR_INVALID_HANDLE)
                &&& final(self).shutdown_spec()
                &&& final(self).handlers@ == old(self).handlers@
                &&& final(self).bus.history() == old(self).bus.history()
                &&& final(self).bus.capacity_spec() == old(self).bus.capacity_spec()
                &&& final(self).bus.is_closed() == old(self).bus.is_closed()
                &&& final(self).connected_spec() == old(self).connected_spec()
            },
            r matches StepAction::Dispatch { handler_ids, event } ==> {
                &&& poll is Data
                &&& final(self).bus.history() == old(self).bus.history().push(event@)
                &&& handler_ids@ == route_of(old(self).handlers@, event)
                &&& final(self).handlers@ == old(self).handlers@
                &&& final(self).connected_spec() == (old(self).connected_spec()
                    && !Self::disconnects(event))
                &&& final(self).shutdown_spec() == old(self).shutdown_spec()
                &&& final(self).bus.capacity_spec() == old(self).bus.capacity_spec()
                &&& final(self).bus.is_closed() == old(self).bus.is_closed()
            },
            !old(self).shutdown_spec() ==> match poll {
                PollResult::Empty => r is Sleep,
                PollResult::ErrorCode(c) => if c == crate::bridge::WM_ERR_INVALID_HANDLE {
                    r matches StepAction::Fail(_)
                } else {
                    r is Sleep
                },
                // Decoding follows the decoder's table: a decodable head is
                // dispatched unless its payload shape mismatches; a pump
                // that merely dropped events would violate this.
                PollResult::Data(bytes) => match envelope_head_of(bytes@) {
                    None => r matches StepAction::Skip(_),
                    Some(head) => {
                        &&& r matches StepAction::Dispatch { handler_ids: _, event } ==> decode_post(
                            head.0,
                            head.1,
                            Ok(event),
                        )
                        &&& r matches StepAction::Skip(e) ==> decode_post(
                            head.0,
                            head.1,
                            Err(e),
                        )
                        &&& ({
                            ||| r matches StepAction::Dispatch { .. }
                            ||| r matches StepAction::Skip(_)
                        })
                    },
                },
            },
    {
        if self.shutdown {
            return StepAction::Stop;
        }
        match poll {
            PollResult::Empty => StepAction::Sleep,
            PollResult::ErrorCode(code) => match check_result(code) {
                Ok(()) => StepAction::Sleep,
                Err(e) => match e {
                    Error::InvalidHandle => {
                        self.shutdown = true;
                        StepAction::Fail(Error::InvalidHandle)
                    },
                    _ => StepAction::Sleep,
                },
            },
            PollResult::Data(bytes) => match decode_envelope(bytes.as_slice()) {
                Err(e) => StepAction::Skip(e),
                Ok(event) => {
                    let handler_ids = self.handlers.dispatch(&event);
                    let stored = event.clone();
                    match &event {
                        Event::Disconnected => {
                            self.connected = false;
                        },
                        Event::LoggedOut(_) => {
                            self.connected = false;
                        },
                        _ => {},
                    }
                    self.bus.emit(stored);
                    StepAction::Dispatch { handler_ids, event }
                },
            },
        }
    }
}

} // verus!
