//! Decoding of event envelopes.
//!
//! An envelope is one JSON document `{type, timestamp, data}`. The `type`
//! string selects the event variant; a missing payload on a variant that
//! needs one yields `Unknown` rather than a failure; a malformed payload for
//! a known type is a parse error; an unrecognized type keeps its raw payload
//! in `Unknown`.

use vstd::prelude::*;

use crate::error::Error;
use crate::events::{
    Event, LoggedOutEvent, MessageContent, MessageEvent, MessageInfo, OfflineSyncCompletedEvent,
    OfflineSyncPreviewEvent, PairSuccessEvent, PresenceEvent, QrEvent, ReceiptEvent,
};
use crate::jid::Jid;
use crate::json::{json_as_array, json_as_bool, json_as_i64, json_as_str, json_get, json_is_null};
use crate::text::str_eq;

verus! {

/// The tags of the closed variant table.
pub open spec fn known_tag(t: Seq<char>) -> bool {
    ||| t == "qr"@
    ||| t == "pair_success"@
    ||| t == "connected"@
    ||| t == "disconnected"@
    ||| t == "logged_out"@
    ||| t == "message"@
    ||| t == "receipt"@
    ||| t == "presence"@
    ||| t == "history_sync"@
    ||| t == "offline_sync_preview"@
    ||| t == "offline_sync_completed"@
}

/// A field of a JSON object that must be a string: `None` when the field is
/// absent or has another type.
fn get_req_string(v: &serde_json::Value, key: &str) -> Option<String> {
    match json_get(v, key) {
        Some(f) => json_as_str(f),
        None => None,
    }
}

/// A string field with an empty default: the default applies only when the
/// field is absent; a present field of another type is a shape error.
fn get_def_string(v: &serde_json::Value, key: &str) -> Option<String> {
    match json_get(v, key) {
        Some(f) => json_as_str(f),
        None => Some(String::new()),
    }
}

/// A field that must be a boolean.
fn get_req_bool(v: &serde_json::Value, key: &str) -> Option<bool> {
    match json_get(v, key) {
        Some(f) => json_as_bool(f),
        None => None,
    }
}

/// A boolean field that defaults to `false` when absent.
fn get_def_bool(v: &serde_json::Value, key: &str) -> Option<bool> {
    match json_get(v, key) {
        Some(f) => json_as_bool(f),
        None => Some(false),
    }
}

/// A field that must be an integer within the `i32` range.
fn get_req_i32(v: &serde_json::Value, key: &str) -> Option<i32> {
    match json_get(v, key) {
        Some(f) => match json_as_i64(f) {
            Some(n) => {
                if -0x8000_0000i64 <= n && n <= 0x7fff_ffffi64 {
                    Some(n as i32)
                } else {
                    None
                }
            },
            None => None,
        },
        None => None,
    }
}

fn extract_qr(data: &serde_json::Value) -> Option<QrEvent> {
    let arr = match json_get(data, "Codes") {
        Some(f) => match json_as_array(f) {
            Some(a) => a,
            None => {
                return None;
            },
        },
        None => {
            return None;
        },
    };
    let mut codes: Vec<String> = Vec::new();
    let n = arr.len();
    let mut i: usize = 0;
    while i < n
        invariant
            n == arr@.len(),
            0 <= i <= n,
        decreases n - i,
    {
        match json_as_str(vstd::std_specs::vec::vec_index(&arr, i)) {
            Some(s) => codes.push(s),
            None => {
                return None;
            },
        }
        i = i + 1;
    }
    Some(QrEvent { codes })
}

fn extract_pair_success(data: &serde_json::Value) -> Option<PairSuccessEvent> {
    let id = match get_req_string(data, "ID") {
        Some(s) => Jid::new(s),
        None => {
            return None;
        },
    };
    let business_name = match get_req_string(data, "BusinessName") {
        Some(s) => s,
        None => {
            return None;
        },
    };
    let platform = match get_req_string(data, "Platform") {
        Some(s) => s,
        None => {
            return None;
        },
    };
    Some(PairSuccessEvent { id, business_name, platform })
}

fn extract_logged_out(data: &serde_json::Value) -> Option<LoggedOutEvent> {
    let on_connect = match get_req_bool(data, "OnConnect") {
        Some(b) => b,
        None => {
            return None;
        },
    };
    let reason = match get_req_i32(data, "Reason") {
        Some(n) => n,
        None => {
            return None;
        },
    };
    Some(LoggedOutEvent { on_connect, reason })
}

fn extract_message_info(v: &serde_json::Value) -> Option<MessageInfo> {
    let id = match get_req_string(v, "ID") {
        Some(s) => s,
        None => {
            return None;
        },
    };
    let chat = match get_req_string(v, "Chat") {
        Some(s) => s,
        None => {
            return None;
        },
    };
    let sender = match get_req_string(v, "Sender") {
        Some(s) => s,
        None => {
            return None;
        },
    };
    let sender_alt = match get_def_string(v, "SenderAlt") {
        Some(s) => s,
        None => {
            return None;
        },
    };
    let is_from_me = match get_req_bool(v, "IsFromMe") {
        Some(b) => b,
        None => {
            return None;
        },
    };
    let is_group = match get_req_bool(v, "IsGroup") {
        Some(b) => b,
        None => {
            return None;
        },
    };
    let push_name = match get_def_string(v, "PushName") {
        Some(s) => s,
        None => {
            return None;
        },
    };
    let timestamp = match get_req_string(v, "Timestamp") {
        Some(s) => s,
        None => {
            return None;
        },
    };
    let message_type = match get_def_string(v, "Type") {
        Some(s) => s,
        None => {
            return None;
        },
    };
    let media_type = match get_def_string(v, "MediaType") {
        Some(s) => s,
        None => {
            return None;
        },
    };
    let category = match get_def_string(v, "Category") {
        Some(s) => s,
        None => {
            return None;
        },
    };
    Some(
        MessageInfo {
            id,
            chat,
            sender,
            sender_alt,
            is_from_me,
            is_group,
            push_name,
            timestamp,
            message_type,
            media_type,
            category,
        },
    )
}

/// The textual content of a message payload; both fields are optional, so
/// extraction never fails.
fn extract_content(v: &serde_json::Value) -> MessageContent {
    let conversation = match json_get(v, "conversation") {
        Some(f) => json_as_str(f),
        None => None,
    };
    let extended_text = match json_get(v, "extendedTextMessage") {
        Some(ext) => match json_get(ext, "text") {
            Some(f) => json_as_str(f),
            None => None,
        },
        None => None,
    };
    MessageContent { conversation, extended_text }
}

fn extract_message(data: &serde_json::Value) -> Option<MessageEvent> {
    let info = match json_get(data, "Info") {
        Some(f) => match extract_message_info(f) {
            Some(i) => i,
            None => {
                return None;
            },
        },
        None => {
            return None;
        },
    };
    let content = match json_get(data, "Message") {
        Some(m) => {
            if json_is_null(m) {
                None
            } else {
                Some(extract_content(m))
            }
        },
        None => None,
    };
    let is_edit = match get_def_bool(data, "IsEdit") {
        Some(b) => b,
        None => {
            return None;
        },
    };
    let is_ephemeral = match get_def_bool(data, "IsEphemeral") {
        Some(b) => b,
        None => {
            return None;
        },
    };
    let is_view_once = match get_def_bool(data, "IsViewOnce") {
        Some(b) => b,
        None => {
            return None;
        },
    };
    let is_document_with_caption = match get_def_bool(data, "IsDocumentWithCaption") {
        Some(b) => b,
        None => {
            return None;
        },
    };
    Some(
        MessageEvent {
            info,
            content,
            is_edit,
            is_ephemeral,
            is_view_once,
            is_document_with_caption,
        },
    )
}

fn extract_receipt(data: &serde_json::Value) -> Option<ReceiptEvent> {
    let arr = match json_get(data, "MessageIDs") {
        Some(f) => match json_as_array(f) {
            Some(a) => a,
            None => {
                return None;
            },
        },
        None => {
            return None;
        },
    };
    let mut message_ids: Vec<String> = Vec::new();
    let n = arr.len();
    let mut i: usize = 0;
    while i < n
        invariant
            n == arr@.len(),
            0 <= i <= n,
        decreases n - i,
    {
        match json_as_str(vstd::std_specs::vec::vec_index(&arr, i)) {
            Some(s) => message_ids.push(s),
            None => {
                return None;
            },
        }
        i = i + 1;
    }
    let chat = match get_req_string(data, "Chat") {
        Some(s) => s,
        None => {
            return None;
        },
    };
    let sender = match get_req_string(data, "Sender") {
        Some(s) => s,
        None => {
            return None;
        },
    };
    let receipt_type = match get_req_string(data, "Type") {
        Some(s) => s,
        None => {
            return None;
        },
    };
    let timestamp = match get_req_string(data, "Timestamp") {
        Some(s) => s,
        None => {
            return None;
        },
    };
    Some(ReceiptEvent { message_ids, chat, sender, receipt_type, timestamp })
}

fn extract_presence(data: &serde_json::Value) -> Option<PresenceEvent> {
    let from = match get_req_string(data, "From") {
        Some(s) => s,
        None => {
            return None;
        },
    };
    let unavailable = match get_req_bool(data, "Unavailable") {
        Some(b) => b,
        None => {
            return None;
        },
    };
    let last_seen = match get_req_string(data, "LastSeen") {
        Some(s) => s,
        None => {
            return None;
        },
    };
    Some(PresenceEvent { from, unavailable, last_seen })
}

fn extract_offline_preview(data: &serde_json::Value) -> Option<OfflineSyncPreviewEvent> {
    let total = match get_req_i32(data, "Total") {
        Some(n) => n,
        None => {
            return None;
        },
    };
    let app_data_changes = match get_req_i32(data, "AppDataChanges") {
        Some(n) => n,
        None => {
            return None;
        },
    };
    let messages = match get_req_i32(data, "Messages") {
        Some(n) => n,
        None => {
            return None;
        },
    };
    let notifications = match get_req_i32(data, "Notifications") {
        Some(n) => n,
        None => {
            return None;
        },
    };
    let receipts = match get_req_i32(data, "Receipts") {
        Some(n) => n,
        None => {
            return None;
        },
    };
    Some(OfflineSyncPreviewEvent { total, app_data_changes, messages, notifications, receipts })
}

fn extract_offline_completed(data: &serde_json::Value) -> Option<OfflineSyncCompletedEvent> {
    match get_req_i32(data, "Count") {
        Some(n) => Some(OfflineSyncCompletedEvent { count: n }),
        None => None,
    }
}

/// When a known tag arrives with a payload, the result is either its
/// variant or a parse error — never a silently dropped or misfiled event.
pub open spec fn variant_or_parse_error(r: Result<Event, Error>, tag: Seq<char>) -> bool {
    if tag == "pair_success"@ {
        r matches Ok(Event::PairSuccess(_)) || r matches Err(Error::EventParse(_))
    } else if tag == "logged_out"@ {
        r matches Ok(Event::LoggedOut(_)) || r matches Err(Error::EventParse(_))
    } else if tag == "qr"@ {
        r matches Ok(Event::Qr(_)) || r matches Err(Error::EventParse(_))
    } else if tag == "message"@ {
        r matches Ok(Event::Message(_)) || r matches Err(Error::EventParse(_))
    } else if tag == "receipt"@ {
        r matches Ok(Event::Receipt(_)) || r matches Err(Error::EventParse(_))
    } else if tag == "presence"@ {
        r matches Ok(Event::Presence(_)) || r matches Err(Error::EventParse(_))
    } else if tag == "offline_sync_preview"@ {
        r matches Ok(Event::OfflineSyncPreview(_)) || r matches Err(Error::EventParse(_))
    } else if tag == "offline_sync_completed"@ {
        r matches Ok(Event::OfflineSyncCompleted(_)) || r matches Err(Error::EventParse(_))
    } else {
        true
    }
}

/// What decoding returns, as a decision table over the tag and the
/// presence of a payload, tried in the same order as the implementation:
/// the three payload-free tags give their events outright; every other
/// known tag needs a payload, and without one the envelope degrades to
/// `Unknown` under its own tag; a known tag with a payload gives its
/// variant or a parse error; an unrecognized tag becomes `Unknown`.
pub open spec fn decode_post(tag: Seq<char>, has_data: bool, r: Result<Event, Error>) -> bool {
    if tag == "connected"@ {
        r == Ok::<Event, Error>(Event::Connected)
    } else if tag == "disconnected"@ {
        r == Ok::<Event, Error>(Event::Disconnected)
    } else if tag == "history_sync"@ {
        r == Ok::<Event, Error>(Event::HistorySync)
    } else if known_tag(tag) {
        if has_data {
            variant_or_parse_error(r, tag)
        } else {
            r matches Ok(Event::Unknown { event_type, data }) && event_type@ == tag && data
                is None
        }
    } else {
        r matches Ok(Event::Unknown { event_type, data }) && event_type@ == tag && (data is Some
            <==> has_data)
    }
}

/// Turn a decoded envelope into exactly one event.
///
/// The table is closed and follows `decode_post`: a known tag with a
/// payload yields its variant or a parse error when the payload shape
/// mismatches; a known tag missing its required payload degrades to
/// `Unknown` under its own tag (only `connected`, `disconnected` and
/// `history_sync` need no payload by design); an unrecognized tag becomes
/// `Unknown` with the raw payload preserved.
pub fn into_event(event_type: String, data: Option<serde_json::Value>) -> (r: Result<Event, Error>)
    ensures
        decode_post(event_type@, data is Some, r),
        r matches Ok(Event::Unknown { event_type: t, data: d }) ==> t == event_type && d == data,
        !known_tag(event_type@) ==> r == Ok::<Event, Error>(Event::Unknown { event_type, data }),
{
    let tag = event_type.as_str();
    if str_eq(tag, "connected") {
        Ok(Event::Connected)
    } else if str_eq(tag, "disconnected") {
        Ok(Event::Disconnected)
    } else if str_eq(tag, "history_sync") {
        Ok(Event::HistorySync)
    } else if str_eq(tag, "pair_success") {
        match data {
            Some(d) => match extract_pair_success(&d) {
                Some(e) => Ok(Event::PairSuccess(e)),
                None => Err(Error::EventParse("malformed pair_success payload".to_owned())),
            },
            None => Ok(Event::Unknown { event_type, data: None }),
        }
    } else if str_eq(tag, "logged_out") {
        match data {
            Some(d) => match extract_logged_out(&d) {
                Some(e) => Ok(Event::LoggedOut(e)),
                None => Err(Error::EventParse("malformed logged_out payload".to_owned())),
            },
            None => Ok(Event::Unknown { event_type, data: None }),
        }
    } else if str_eq(tag, "qr") {
        match data {
            Some(d) => match extract_qr(&d) {
                Some(e) => Ok(Event::Qr(e)),
                None => Err(Error::EventParse("malformed qr payload".to_owned())),
            },
            None => Ok(Event::Unknown { event_type, data: None }),
        }
    } else if str_eq(tag, "message") {
        match data {
            Some(d) => match extract_message(&d) {
                Some(e) => Ok(Event::Message(e)),
                None => Err(Error::EventParse("malformed message payload".to_owned())),
            },
            None => Ok(Event::Unknown { event_type, data: None }),
        }
    } else if str_eq(tag, "receipt") {
        match data {
            Some(d) => match extract_receipt(&d) {
                Some(e) => Ok(Event::Receipt(e)),
                None => Err(Error::EventParse("malformed receipt payload".to_owned())),
            },
            None => Ok(Event::Unknown { event_type, data: None }),
        }
    } else if str_eq(tag, "presence") {
        match data {
            Some(d) => match extract_presence(&d) {
                Some(e) => Ok(Event::Presence(e)),
                None => Err(Error::EventParse("malformed presence payload".to_owned())),
            },
            None => Ok(Event::Unknown { event_type, data: None }),
        }
    } else if str_eq(tag, "offline_sync_preview") {
        match data {
            Some(d) => match extract_offline_preview(&d) {
                Some(e) => Ok(Event::OfflineSyncPreview(e)),
                None => Err(Error::EventParse("malformed offline_sync_preview payload".to_owned())),
            },
            None => Ok(Event::Unknown { event_type, data: None }),
        }
    } else if str_eq(tag, "offline_sync_completed") {
        match data {
            Some(d) => match extract_offline_completed(&d) {
                Some(e) => Ok(Event::OfflineSyncCompleted(e)),
                None => Err(
                    Error::EventParse("malformed offline_sync_completed payload".to_owned()),
                ),
            },
            None => Ok(Event::Unknown { event_type, data: None }),
        }
    } else {
        Ok(Event::Unknown { event_type, data })
    }
}

/// What the head of an envelope holds, as a function of the bytes alone:
/// `None` when the bytes are not one JSON object with a string `type` and
/// an integer `timestamp`; otherwise the `type` string and whether a
/// non-null `data` field is present. What the JSON grammar accepts is the
/// parser's business; this name stands for its verdict.
pub uninterp spec fn envelope_head_of(b: Seq<u8>) -> Option<(Seq<char>, bool)>;

/// Relies on serde_json::from_slice and the `Value` accessors `get`,
/// `as_str`, `as_i64` and `is_null`: parsing is deterministic in the
/// bytes alone, so the head — the `type` string and the presence of a
/// non-null `data` — is the function `envelope_head_of` of them. The
/// returned payload value is the `data` field itself, present exactly
/// when the head says so.
#[verifier::external_body]
fn parse_envelope_head(bytes: &[u8]) -> (r: Option<(String, Option<serde_json::Value>)>)
    ensures
        r is None <==> envelope_head_of(bytes@) is None,
        r matches Some(head) ==> envelope_head_of(bytes@) == Some((head.0@, head.1 is Some)),
{
    let doc: serde_json::Value = serde_json::from_slice(bytes).ok()?;
    let tag = doc.get("type")?.as_str()?.to_owned();
    doc.get("timestamp")?.as_i64()?;
    let data = match doc.get("data") {
        Some(d) if !d.is_null() => Some(d.clone()),
        _ => None,
    };
    Some((tag, data))
}

/// Decode one raw envelope from bytes.
///
/// The bytes must hold one JSON object with a string `type` and an integer
/// `timestamp`; `data` is optional and JSON `null` counts as absent. A
/// decodable head is decoded by the `decode_post` table; any shape
/// violation is an `EventParse` error — decoding never fails with another
/// error class, and never panics, so one corrupt envelope cannot take the
/// polling loop down.
pub fn decode_envelope(bytes: &[u8]) -> (r: Result<Event, Error>)
    ensures
        match envelope_head_of(bytes@) {
            None => r matches Err(Error::EventParse(_)),
            Some(head) => decode_post(head.0, head.1, r),
        },
        r is Err ==> r matches Err(Error::EventParse(_)),
{
    match parse_envelope_head(bytes) {
        Some((event_type, data)) => into_event(event_type, data),
        None => Err(Error::EventParse("malformed envelope".to_owned())),
    }
}

} // verus!
