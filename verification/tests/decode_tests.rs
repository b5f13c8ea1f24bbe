use whatsmeow::decode::{decode_envelope, into_event};
use whatsmeow::error::Error;
use whatsmeow::events::Event;

fn decode(s: &str) -> Result<Event, Error> {
    decode_envelope(s.as_bytes())
}

#[test]
fn message_envelope_decodes_text_and_sender_name() {
    let envelope = "{\"type\":\"message\",\"timestamp\":1000,\"data\":{\"Info\":{\"ID\":\"1\",\"Chat\":\"c@g.us\",\"Sender\":\"s@g.us\",\"IsFromMe\":false,\"IsGroup\":true,\"PushName\":\"Bot\",\"Timestamp\":\"1000\"},\"Message\":{\"conversation\":\"hi\"}}}";
    let event = decode(envelope).unwrap();
    match event {
        Event::Message(m) => {
            assert_eq!(m.text(), "hi");
            assert_eq!(m.sender_name(), "Bot");
            assert!(m.is_group());
            assert_eq!(m.info.id, "1");
            assert_eq!(m.info.chat, "c@g.us");
            assert_eq!(m.info.sender, "s@g.us");
            assert!(!m.info.is_from_me);
            assert_eq!(m.info.timestamp, "1000");
            assert_eq!(m.info.sender_alt, "");
            assert!(!m.is_edit);
        }
        other => panic!("expected a message event, got {:?}", other),
    }
}

#[test]
fn sender_name_falls_back_to_jid_user_part() {
    let envelope = "{\"type\":\"message\",\"timestamp\":2,\"data\":{\"Info\":{\"ID\":\"2\",\"Chat\":\"c\",\"Sender\":\"7700@s.whatsapp.net\",\"IsFromMe\":true,\"IsGroup\":false,\"Timestamp\":\"2\"},\"Message\":{\"extendedTextMessage\":{\"text\":\"longer\"}}}}";
    match decode(envelope).unwrap() {
        Event::Message(m) => {
            assert_eq!(m.sender_name(), "7700");
            assert_eq!(m.text(), "longer");
        }
        other => panic!("expected a message event, got {:?}", other),
    }
}

#[test]
fn message_without_content_has_empty_text() {
    let envelope = "{\"type\":\"message\",\"timestamp\":3,\"data\":{\"Info\":{\"ID\":\"3\",\"Chat\":\"c\",\"Sender\":\"x\",\"IsFromMe\":false,\"IsGroup\":false,\"Timestamp\":\"3\"}}}";
    match decode(envelope).unwrap() {
        Event::Message(m) => assert_eq!(m.text(), ""),
        other => panic!("expected a message event, got {:?}", other),
    }
}

#[test]
fn known_type_with_missing_data_becomes_unknown() {
    let event = decode("{\"type\":\"message\",\"timestamp\":1}").unwrap();
    assert_eq!(
        event,
        Event::Unknown { event_type: "message".to_string(), data: None }
    );
    let event = decode("{\"type\":\"qr\",\"timestamp\":1}").unwrap();
    assert_eq!(event, Event::Unknown { event_type: "qr".to_string(), data: None });
    let event = decode("{\"type\":\"receipt\",\"timestamp\":1}").unwrap();
    assert_eq!(event, Event::Unknown { event_type: "receipt".to_string(), data: None });
}

#[test]
fn null_data_counts_as_missing() {
    let event = decode("{\"type\":\"presence\",\"timestamp\":1,\"data\":null}").unwrap();
    assert_eq!(event, Event::Unknown { event_type: "presence".to_string(), data: None });
}

#[test]
fn pair_success_without_data_becomes_unknown() {
    let event = decode("{\"type\":\"pair_success\",\"timestamp\":1}").unwrap();
    assert_eq!(event, Event::Unknown { event_type: "pair_success".to_string(), data: None });
}

#[test]
fn logged_out_without_data_becomes_unknown() {
    let event = decode("{\"type\":\"logged_out\",\"timestamp\":1}").unwrap();
    assert_eq!(event, Event::Unknown { event_type: "logged_out".to_string(), data: None });
}

#[test]
fn unrecognized_type_preserves_raw_payload() {
    let envelope = "{\"type\":\"newly_invented\",\"timestamp\":9,\"data\":{\"x\":[1,2]}}";
    let event = decode(envelope).unwrap();
    let expected_data: serde_json::Value = serde_json::from_str("{\"x\":[1,2]}").unwrap();
    match event {
        Event::Unknown { event_type, data } => {
            assert_eq!(event_type, "newly_invented");
            assert_eq!(data, Some(expected_data));
        }
        other => panic!("expected an unknown event, got {:?}", other),
    }
}

#[test]
fn connection_state_types_need_no_payload() {
    assert_eq!(decode("{\"type\":\"connected\",\"timestamp\":1}").unwrap(), Event::Connected);
    assert_eq!(
        decode("{\"type\":\"disconnected\",\"timestamp\":1}").unwrap(),
        Event::Disconnected
    );
    assert_eq!(decode("{\"type\":\"history_sync\",\"timestamp\":1}").unwrap(), Event::HistorySync);
}

#[test]
fn qr_codes_decode_in_order_and_first_is_current() {
    let envelope =
        "{\"type\":\"qr\",\"timestamp\":1,\"data\":{\"Codes\":[\"first\",\"second\"]}}";
    match decode(envelope).unwrap() {
        Event::Qr(qr) => {
            assert_eq!(qr.codes, vec!["first".to_string(), "second".to_string()]);
            assert_eq!(qr.code(), Some("first"));
        }
        other => panic!("expected a qr event, got {:?}", other),
    }
}

#[test]
fn pair_success_with_payload_decodes_fields() {
    let envelope = "{\"type\":\"pair_success\",\"timestamp\":1,\"data\":{\"ID\":\"77@s.whatsapp.net\",\"BusinessName\":\"Shop\",\"Platform\":\"web\"}}";
    match decode(envelope).unwrap() {
        Event::PairSuccess(p) => {
            assert_eq!(p.id.as_str(), "77@s.whatsapp.net");
            assert_eq!(p.business_name, "Shop");
            assert_eq!(p.platform, "web");
        }
        other => panic!("expected a pair_success event, got {:?}", other),
    }
}

#[test]
fn logged_out_with_payload_decodes_fields() {
    let envelope =
        "{\"type\":\"logged_out\",\"timestamp\":1,\"data\":{\"OnConnect\":true,\"Reason\":401}}";
    match decode(envelope).unwrap() {
        Event::LoggedOut(l) => {
            assert!(l.on_connect);
            assert_eq!(l.reason, 401);
        }
        other => panic!("expected a logged_out event, got {:?}", other),
    }
}

#[test]
fn receipt_and_presence_decode() {
    let envelope = "{\"type\":\"receipt\",\"timestamp\":1,\"data\":{\"MessageIDs\":[\"a\",\"b\"],\"Chat\":\"c\",\"Sender\":\"s\",\"Type\":\"read\",\"Timestamp\":\"5\"}}";
    match decode(envelope).unwrap() {
        Event::Receipt(r) => {
            assert_eq!(r.message_ids, vec!["a".to_string(), "b".to_string()]);
            assert_eq!(r.receipt_type, "read");
        }
        other => panic!("expected a receipt event, got {:?}", other),
    }
    let envelope = "{\"type\":\"presence\",\"timestamp\":1,\"data\":{\"From\":\"f\",\"Unavailable\":false,\"LastSeen\":\"now\"}}";
    match decode(envelope).unwrap() {
        Event::Presence(p) => {
            assert!(p.is_online());
            assert_eq!(p.from, "f");
        }
        other => panic!("expected a presence event, got {:?}", other),
    }
}

#[test]
fn offline_sync_events_decode() {
    let envelope = "{\"type\":\"offline_sync_preview\",\"timestamp\":1,\"data\":{\"Total\":5,\"AppDataChanges\":1,\"Messages\":2,\"Notifications\":1,\"Receipts\":1}}";
    match decode(envelope).unwrap() {
        Event::OfflineSyncPreview(p) => {
            assert_eq!(p.total, 5);
            assert_eq!(p.messages, 2);
        }
        other => panic!("expected an offline sync preview, got {:?}", other),
    }
    let envelope =
        "{\"type\":\"offline_sync_completed\",\"timestamp\":1,\"data\":{\"Count\":7}}";
    match decode(envelope).unwrap() {
        Event::OfflineSyncCompleted(c) => assert_eq!(c.count, 7),
        other => panic!("expected an offline sync completion, got {:?}", other),
    }
}

#[test]
fn malformed_envelopes_are_parse_errors_not_crashes() {
    assert!(matches!(decode("not json at all"), Err(Error::EventParse(_))));
    assert!(matches!(decode("{\"timestamp\":1}"), Err(Error::EventParse(_))));
    assert!(matches!(decode("{\"type\":7,\"timestamp\":1}"), Err(Error::EventParse(_))));
    assert!(matches!(decode("{\"type\":\"qr\"}"), Err(Error::EventParse(_))));
    assert!(matches!(
        decode("{\"type\":\"qr\",\"timestamp\":\"soon\"}"),
        Err(Error::EventParse(_))
    ));
}

#[test]
fn known_type_with_wrong_payload_shape_is_a_parse_error() {
    assert!(matches!(
        decode("{\"type\":\"qr\",\"timestamp\":1,\"data\":{\"Codes\":\"x\"}}"),
        Err(Error::EventParse(_))
    ));
    assert!(matches!(
        decode("{\"type\":\"qr\",\"timestamp\":1,\"data\":{\"Codes\":[\"a\",5]}}"),
        Err(Error::EventParse(_))
    ));
    assert!(matches!(
        decode("{\"type\":\"message\",\"timestamp\":1,\"data\":{\"Info\":{\"ID\":\"1\"}}}"),
        Err(Error::EventParse(_))
    ));
    assert!(matches!(
        decode("{\"type\":\"logged_out\",\"timestamp\":1,\"data\":{\"OnConnect\":true,\"Reason\":4000000000}}"),
        Err(Error::EventParse(_))
    ));
}

#[test]
fn into_event_reports_unknown_tag_with_payload_intact() {
    let data: serde_json::Value = serde_json::from_str("[1,2,3]").unwrap();
    let r = into_event("mystery".to_string(), Some(data.clone())).unwrap();
    assert_eq!(r, Event::Unknown { event_type: "mystery".to_string(), data: Some(data) });
}
