//! Typed events emitted by the client.
//!
//! One closed tagged union: every native event becomes exactly one variant,
//! and unrecognized tags become `Unknown`, carrying the raw payload instead
//! of being dropped.

use vstd::prelude::*;
use vstd::std_specs::vec::vec_index;

use crate::jid::Jid;

verus! {

/// QR code event data: the codes offered for pairing, first is current.
#[derive(Debug, PartialEq, Eq)]
pub struct QrEvent {
    pub codes: Vec<String>,
}

/// Mathematical content of a `QrEvent`.
pub struct QrEventV {
    pub codes: Seq<String>,
}

impl View for QrEvent {
    type V = QrEventV;

    open spec fn view(&self) -> QrEventV {
        QrEventV { codes: self.codes@ }
    }
}

impl Clone for QrEvent {
    fn clone(&self) -> (r: Self)
        ensures
            r@ == self@,
    {
        let codes = self.codes.clone();
        proof {
            assert(codes@ =~= self.codes@);
        }
        QrEvent { codes }
    }
}

impl QrEvent {
    /// The current (first) QR code, if any code is present.
    pub fn code(&self) -> (r: Option<&str>)
        ensures
            self.codes@.len() > 0 ==> (r matches Some(c) && c@ == self.codes@[0]@),
            self.codes@.len() == 0 ==> r is None,
    {
        if self.codes.len() > 0 {
            Some(vec_index(&self.codes, 0).as_str())
        } else {
            None
        }
    }
}

/// Pairing succeeded: the paired identity, its display name and platform.
#[derive(Debug, PartialEq, Eq)]
pub struct PairSuccessEvent {
    pub id: Jid,
    pub business_name: String,
    pub platform: String,
}

impl Clone for PairSuccessEvent {
    fn clone(&self) -> (r: Self)
        ensures
            r == *self,
    {
        PairSuccessEvent {
            id: self.id.clone(),
            business_name: self.business_name.clone(),
            platform: self.platform.clone(),
        }
    }
}

/// The session was logged out: reason code and whether it happened during
/// connect.
#[derive(Debug, Clone, Copy, PartialEq, Eq)]
pub struct LoggedOutEvent {
    pub on_connect: bool,
    pub reason: i32,
}

/// Metadata of one incoming message.
#[derive(Debug, PartialEq, Eq)]
pub struct MessageInfo {
    pub id: String,
    pub chat: String,
    pub sender: String,
    pub sender_alt: String,
    pub is_from_me: bool,
    pub is_group: bool,
    pub push_name: String,
    pub timestamp: String,
    pub message_type: String,
    pub media_type: String,
    pub category: String,
}

impl Clone for MessageInfo {
    fn clone(&self) -> (r: Self)
        ensures
            r == *self,
    {
        MessageInfo {
            id: self.id.clone(),
            chat: self.chat.clone(),
            sender: self.sender.clone(),
            sender_alt: self.sender_alt.clone(),
            is_from_me: self.is_from_me,
            is_group: self.is_group,
            push_name: self.push_name.clone(),
            timestamp: self.timestamp.clone(),
            message_type: self.message_type.clone(),
            media_type: self.media_type.clone(),
            category: self.category.clone(),
        }
    }
}

/// The textual content extracted from a message payload: a plain
/// conversation text or the text of an extended text message.
#[derive(Debug, PartialEq, Eq)]
pub struct MessageContent {
    pub conversation: Option<String>,
    pub extended_text: Option<String>,
}

impl Clone for MessageContent {
    fn clone(&self) -> (r: Self)
        ensures
            r == *self,
    {
        MessageContent {
            conversation: match &self.conversation {
                Some(s) => Some(s.clone()),
                None => None,
            },
            extended_text: match &self.extended_text {
                Some(s) => Some(s.clone()),
                None => None,
            },
        }
    }
}

/// Incoming message event.
#[derive(Debug, PartialEq, Eq)]
pub struct MessageEvent {
    pub info: MessageInfo,
    pub content: Option<MessageContent>,
    pub is_edit: bool,
    pub is_ephemeral: bool,
    pub is_view_once: bool,
    pub is_document_with_caption: bool,
}

impl Clone for MessageEvent {
    fn clone(&self) -> (r: Self)
        ensures
            r == *self,
    {
        MessageEvent {
            info: self.info.clone(),
            content: match &self.content {
                Some(c) => Some(c.clone()),
                None => None,
            },
            is_edit: self.is_edit,
            is_ephemeral: self.is_ephemeral,
            is_view_once: self.is_view_once,
            is_document_with_caption: self.is_document_with_caption,
        }
    }
}

/// The index of the first `@` in `s`, or `s.len()` if there is none.
pub open spec fn first_at_index(s: Seq<char>) -> int
    decreases s.len(),
{
    if s.len() == 0 {
        0
    } else if s[0] == '@' {
        0
    } else {
        1 + first_at_index(s.skip(1))
    }
}

proof fn lemma_first_at_index_at(s: Seq<char>, i: int)
    requires
        0 <= i <= s.len(),
        forall|j: int| 0 <= j < i ==> s[j] != '@',
        i == s.len() || s[i] == '@',
    ensures
        first_at_index(s) == i,
    decreases i,
{
    if i == 0 {
    } else {
        let t = s.skip(1);
        assert(forall|j: int| 0 <= j < i - 1 ==> t[j] != '@');
        lemma_first_at_index_at(t, i - 1);
    }
}

/// The text carried by a message payload: the conversation text if present,
/// otherwise the extended text, otherwise empty.
pub open spec fn extracted_text(c: Option<MessageContent>) -> Seq<char> {
    match c {
        Some(c) => match c.conversation {
            Some(t) => t@,
            None => match c.extended_text {
                Some(t) => t@,
                None => Seq::<char>::empty(),
            },
        },
        None => Seq::<char>::empty(),
    }
}

impl MessageEvent {
    /// Whether the message was sent in a group chat.
    pub fn is_group(&self) -> (r: bool)
        ensures
            r == self.info.is_group,
    {
        self.info.is_group
    }

    /// The sender's display name: the push name when one was supplied,
    /// otherwise the part of the sender JID before the first `@`.
    pub fn sender_name(&self) -> (r: &str)
        ensures
            self.info.push_name@.len() > 0 ==> r@ == self.info.push_name@,
            self.info.push_name@.len() == 0 ==> r@ == self.info.sender@.subrange(
                0,
                first_at_index(self.info.sender@),
            ),
    {
        if !self.info.push_name.as_str().is_empty() {
            self.info.push_name.as_str()
        } else {
            let s = self.info.sender.as_str();
            let n = s.unicode_len();
            let mut i: usize = 0;
            while i < n && s.get_char(i) != '@'
                invariant
                    n == s@.len(),
                    0 <= i <= n,
                    forall|j: int| 0 <= j < i ==> s@[j] != '@',
                decreases n - i,
            {
                i = i + 1;
            }
            proof {
                lemma_first_at_index_at(s@, i as int);
            }
            s.substring_char(0, i)
        }
    }

    /// Extract the message text: conversation text first, then extended
    /// text, otherwise empty.
    pub fn text(&self) -> (r: String)
        ensures
            r@ == extracted_text(self.content),
    {
        match &self.content {
            Some(c) => match &c.conversation {
                Some(t) => t.clone(),
                None => match &c.extended_text {
                    Some(t) => t.clone(),
                    None => String::new(),
                },
            },
            None => String::new(),
        }
    }
}

/// Message delivery receipt.
#[derive(Debug, PartialEq, Eq)]
pub struct ReceiptEvent {
    pub message_ids: Vec<String>,
    pub chat: String,
    pub sender: String,
    pub receipt_type: String,
    pub timestamp: String,
}

/// Mathematical content of a `ReceiptEvent`.
pub struct ReceiptEventV {
    pub message_ids: Seq<String>,
    pub chat: String,
    pub sender: String,
    pub receipt_type: String,
    pub timestamp: String,
}

impl View for ReceiptEvent {
    type V = ReceiptEventV;

    open spec fn view(&self) -> ReceiptEventV {
        ReceiptEventV {
            message_ids: self.message_ids@,
            chat: self.chat,
            sender: self.sender,
            receipt_type: self.receipt_type,
            timestamp: self.timestamp,
        }
    }
}

impl Clone for ReceiptEvent {
    fn clone(&self) -> (r: Self)
        ensures
            r@ == self@,
    {
        let message_ids = self.message_ids.clone();
        proof {
            assert(message_ids@ =~= self.message_ids@);
        }
        ReceiptEvent {
            message_ids,
            chat: self.chat.clone(),
            sender: self.sender.clone(),
            receipt_type: self.receipt_type.clone(),
            timestamp: self.timestamp.clone(),
        }
    }
}

/// Presence update of one contact.
#[derive(Debug, PartialEq, Eq)]
pub struct PresenceEvent {
    pub from: String,
    pub unavailable: bool,
    pub last_seen: String,
}

impl Clone for PresenceEvent {
    fn clone(&self) -> (r: Self)
        ensures
            r == *self,
    {
        PresenceEvent {
            from: self.from.clone(),
            unavailable: self.unavailable,
            last_seen: self.last_seen.clone(),
        }
    }
}

impl PresenceEvent {
    /// Whether the contact is currently online.
    pub fn is_online(&self) -> (r: bool)
        ensures
            r == !self.unavailable,
    {
        !self.unavailable
    }
}

/// Counts previewed before an offline sync.
#[derive(Debug, Clone, Copy, PartialEq, Eq)]
pub struct OfflineSyncPreviewEvent {
    pub total: i32,
    pub app_data_changes: i32,
    pub messages: i32,
    pub notifications: i32,
    pub receipts: i32,
}

/// Count of items delivered by an offline sync.
#[derive(Debug, Clone, Copy, PartialEq, Eq)]
pub struct OfflineSyncCompletedEvent {
    pub count: i32,
}

/// All events emitted by the client.
#[derive(Debug, PartialEq)]
pub enum Event {
    /// QR code for authentication.
    Qr(QrEvent),
    /// Pairing successful.
    PairSuccess(PairSuccessEvent),
    /// Successfully connected.
    Connected,
    /// Disconnected from the service.
    Disconnected,
    /// Logged out.
    LoggedOut(LoggedOutEvent),
    /// Incoming message.
    Message(MessageEvent),
    /// Message delivery receipt.
    Receipt(ReceiptEvent),
    /// Presence update.
    Presence(PresenceEvent),
    /// History sync progress.
    HistorySync,
    /// Offline sync preview.
    OfflineSyncPreview(OfflineSyncPreviewEvent),
    /// Offline sync completed.
    OfflineSyncCompleted(OfflineSyncCompletedEvent),
    /// Unknown event type; the raw payload is kept for inspection.
    Unknown { event_type: String, data: Option<serde_json::Value> },
}

/// Mathematical content of an `Event`.
pub enum EventV {
    Qr(QrEventV),
    PairSuccess(PairSuccessEvent),
    Connected,
    Disconnected,
    LoggedOut(LoggedOutEvent),
    Message(MessageEvent),
    Receipt(ReceiptEventV),
    Presence(PresenceEvent),
    HistorySync,
    OfflineSyncPreview(OfflineSyncPreviewEvent),
    OfflineSyncCompleted(OfflineSyncCompletedEvent),
    Unknown { event_type: String, data: Option<serde_json::Value> },
}

impl View for Event {
    type V = EventV;

    open spec fn view(&self) -> EventV {
        match self {
            Event::Qr(e) => EventV::Qr(e@),
            Event::PairSuccess(e) => EventV::PairSuccess(*e),
            Event::Connected => EventV::Connected,
            Event::Disconnected => EventV::Disconnected,
            Event::LoggedOut(e) => EventV::LoggedOut(*e),
            Event::Message(e) => EventV::Message(*e),
            Event::Receipt(e) => EventV::Receipt(e@),
            Event::Presence(e) => EventV::Presence(*e),
            Event::HistorySync => EventV::HistorySync,
            Event::OfflineSyncPreview(e) => EventV::OfflineSyncPreview(*e),
            Event::OfflineSyncCompleted(e) => EventV::OfflineSyncCompleted(*e),
            Event::Unknown { event_type, data } => EventV::Unknown {
                event_type: *event_type,
                data: *data,
            },
        }
    }
}

impl Clone for Event {
    fn clone(&self) -> (r: Self)
        ensures
            r@ == self@,
    {
        match self {
            Event::Qr(e) => Event::Qr(e.clone()),
            Event::PairSuccess(e) => Event::PairSuccess(e.clone()),
            Event::Connected => Event::Connected,
            Event::Disconnected => Event::Disconnected,
            Event::LoggedOut(e) => Event::LoggedOut(*e),
            Event::Message(e) => Event::Message(e.clone()),
            Event::Receipt(e) => Event::Receipt(e.clone()),
            Event::Presence(e) => Event::Presence(e.clone()),
            Event::HistorySync => Event::HistorySync,
            Event::OfflineSyncPreview(e) => Event::OfflineSyncPreview(*e),
            Event::OfflineSyncCompleted(e) => Event::OfflineSyncCompleted(*e),
            Event::Unknown { event_type, data } => Event::Unknown {
                event_type: event_type.clone(),
                data: match data {
                    Some(v) => Some(crate::json::json_clone(v)),
                    None => None,
                },
            },
        }
    }
}

} // verus!
