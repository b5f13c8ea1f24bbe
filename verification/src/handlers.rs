//! Callback registry: per-event-kind ordered handler lists.
//!
//! Handlers themselves are opaque to the library — registration hands out a
//! ticket (the position in that kind's list), and dispatch returns, for a
//! given event, the tickets to invoke in registration order. Connection
//! events (`Connected`, `PairSuccess`) share one list, disconnection events
//! (`Disconnected`, `LoggedOut`) share another, and informational events are
//! not dispatched to callbacks at all.

use vstd::prelude::*;

use crate::events::Event;

verus! {

/// Mathematical content of a `Handlers` registry: the ordered ticket list
/// of each event kind.
pub struct HandlersV {
    pub qr: Seq<u64>,
    pub message: Seq<u64>,
    pub connected: Seq<u64>,
    pub disconnected: Seq<u64>,
    pub receipt: Seq<u64>,
    pub presence: Seq<u64>,
}

/// Registry of event callbacks, one ordered list per event kind.
pub struct Handlers {
    on_qr: Vec<u64>,
    on_message: Vec<u64>,
    on_connected: Vec<u64>,
    on_disconnected: Vec<u64>,
    on_receipt: Vec<u64>,
    on_presence: Vec<u64>,
}

impl View for Handlers {
    type V = HandlersV;

    closed spec fn view(&self) -> HandlersV {
        HandlersV {
            qr: self.on_qr@,
            message: self.on_message@,
            connected: self.on_connected@,
            disconnected: self.on_disconnected@,
            receipt: self.on_receipt@,
            presence: self.on_presence@,
        }
    }
}

/// The ticket list an event routes to: messages to the message list, QR
/// codes to the QR list, `Connected` and `PairSuccess` both to the
/// connected list, `Disconnected` and `LoggedOut` both to the disconnected
/// list, receipts and presence to their lists, and the informational events
/// (`HistorySync`, the offline sync events, `Unknown`) to nobody.
pub open spec fn route_of(h: HandlersV, e: Event) -> Seq<u64> {
    match e {
        Event::Qr(_) => h.qr,
        Event::Message(_) => h.message,
        Event::Connected => h.connected,
        Event::PairSuccess(_) => h.connected,
        Event::Disconnected => h.disconnected,
        Event::LoggedOut(_) => h.disconnected,
        Event::Receipt(_) => h.receipt,
        Event::Presence(_) => h.presence,
        Event::HistorySync => Seq::<u64>::empty(),
        Event::OfflineSyncPreview(_) => Seq::<u64>::empty(),
        Event::OfflineSyncCompleted(_) => Seq::<u64>::empty(),
        Event::Unknown { .. } => Seq::<u64>::empty(),
    }
}

/// The tickets of one list are exactly its positions.
pub open spec fn sequential_tickets(s: Seq<u64>) -> bool {
    forall|i: int| 0 <= i < s.len() ==> s[i] as int == i
}

impl Handlers {
    /// Every list's tickets are its positions, so no ticket repeats within
    /// a list: a dispatched event names each registered handler of its
    /// kind exactly once.
    pub open spec fn wf(&self) -> bool {
        &&& sequential_tickets(self@.qr)
        &&& sequential_tickets(self@.message)
        &&& sequential_tickets(self@.connected)
        &&& sequential_tickets(self@.disconnected)
        &&& sequential_tickets(self@.receipt)
        &&& sequential_tickets(self@.presence)
    }

    /// An empty registry.
    pub fn new() -> (r: Self)
        ensures
            r.wf(),
            r@.qr == Seq::<u64>::empty(),
            r@.message == Seq::<u64>::empty(),
            r@.connected == Seq::<u64>::empty(),
            r@.disconnected == Seq::<u64>::empty(),
            r@.receipt == Seq::<u64>::empty(),
            r@.presence == Seq::<u64>::empty(),
    {
        Handlers {
            on_qr: Vec::new(),
            on_message: Vec::new(),
            on_connected: Vec::new(),
            on_disconnected: Vec::new(),
            on_receipt: Vec::new(),
            on_presence: Vec::new(),
        }
    }

    /// Register a QR handler; the ticket is its position in the QR list.
    pub fn register_qr(&mut self) -> (id: u64)
        requires
            old(self).wf(),
        ensures
            final(self).wf(),
            id == old(self)@.qr.len(),
            final(self)@ == (HandlersV { qr: old(self)@.qr.push(id), ..old(self)@ }),
    {
        let id = self.on_qr.len() as u64;
        self.on_qr.push(id);
        id
    }

    /// Register a message handler.
    pub fn register_message(&mut self) -> (id: u64)
        requires
            old(self).wf(),
        ensures
            final(self).wf(),
            id == old(self)@.message.len(),
            final(self)@ == (HandlersV { message: old(self)@.message.push(id), ..old(self)@ }),
    {
        let id = self.on_message.len() as u64;
        self.on_message.push(id);
        id
    }

    /// Register a connected handler; it also fires on `PairSuccess`.
    pub fn register_connected(&mut self) -> (id: u64)
        requires
            old(self).wf(),
        ensures
            final(self).wf(),
            id == old(self)@.connected.len(),
            final(self)@ == (HandlersV { connected: old(self)@.connected.push(id), ..old(self)@ }),
    {
        let id = self.on_connected.len() as u64;
        self.on_connected.push(id);
        id
    }

    /// Register a disconnected handler; it also fires on `LoggedOut`.
    pub fn register_disconnected(&mut self) -> (id: u64)
        requires
            old(self).wf(),
        ensures
            final(self).wf(),
            id == old(self)@.disconnected.len(),
            final(self)@ == (HandlersV {
                disconnected: old(self)@.disconnected.push(id),
                ..old(self)@
            }),
    {
        let id = self.on_disconnected.len() as u64;
        self.on_disconnected.push(id);
        id
    }

    /// Register a receipt handler.
    pub fn register_receipt(&mut self) -> (id: u64)
        requires
            old(self).wf(),
        ensures
            final(self).wf(),
            id == old(self)@.receipt.len(),
            final(self)@ == (HandlersV { receipt: old(self)@.receipt.push(id), ..old(self)@ }),
    {
        let id = self.on_receipt.len() as u64;
        self.on_receipt.push(id);
        id
    }

    /// Register a presence handler.
    pub fn register_presence(&mut self) -> (id: u64)
        requires
            old(self).wf(),
        ensures
            final(self).wf(),
            id == old(self)@.presence.len(),
            final(self)@ == (HandlersV { presence: old(self)@.presence.push(id), ..old(self)@ }),
    {
        let id = self.on_presence.len() as u64;
        self.on_presence.push(id);
        id
    }

    /// The tickets to invoke for one event, in registration order.
    pub fn dispatch(&self, event: &Event) -> (ids: Vec<u64>)
        ensures
            ids@ == route_of(self@, *event),
    {
        let r = match event {
            Event::Qr(_) => self.on_qr.clone(),
            Event::Message(_) => self.on_message.clone(),
            Event::Connected => self.on_connected.clone(),
            Event::PairSuccess(_) => self.on_connected.clone(),
            Event::Disconnected => self.on_disconnected.clone(),
            Event::LoggedOut(_) => self.on_disconnected.clone(),
            Event::Receipt(_) => self.on_receipt.clone(),
            Event::Presence(_) => self.on_presence.clone(),
            Event::HistorySync => Vec::new(),
            Event::OfflineSyncPreview(_) => Vec::new(),
            Event::OfflineSyncCompleted(_) => Vec::new(),
            Event::Unknown { .. } => Vec::new(),
        };
        proof {
            assert(r@ =~= route_of(self@, *event));
        }
        r
    }
}

proof fn lemma_sequential_distinct(s: Seq<u64>, i: int, j: int)
    requires
        sequential_tickets(s),
        0 <= i < j < s.len(),
    ensures
        s[i] != s[j],
{
    assert(s[i] as int == i);
    assert(s[j] as int == j);
}

/// Within one dispatch no ticket repeats: a routed event names each
/// handler registered for its kind exactly once.
pub proof fn lemma_dispatch_each_once(h: &Handlers, e: Event)
    requires
        h.wf(),
    ensures
        forall|i: int, j: int|
            0 <= i < j < route_of(h@, e).len() ==> route_of(h@, e)[i] != route_of(h@, e)[j],
{
    let r = route_of(h@, e);
    assert forall|i: int, j: int| 0 <= i < j < r.len() implies r[i] != r[j] by {
        match e {
            Event::Qr(_) => lemma_sequential_distinct(h@.qr, i, j),
            Event::Message(_) => lemma_sequential_distinct(h@.message, i, j),
            Event::Connected => lemma_sequential_distinct(h@.connected, i, j),
            Event::PairSuccess(_) => lemma_sequential_distinct(h@.connected, i, j),
            Event::Disconnected => lemma_sequential_distinct(h@.disconnected, i, j),
            Event::LoggedOut(_) => lemma_sequential_distinct(h@.disconnected, i, j),
            Event::Receipt(_) => lemma_sequential_distinct(h@.receipt, i, j),
            Event::Presence(_) => lemma_sequential_distinct(h@.presence, i, j),
            _ => (),
        }
    }
}

} // verus!
