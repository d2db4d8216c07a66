use async_openai_wasm::types::realtime::{
    ClientEvent, ConversationItemCreateEvent, ConversationItemDeleteEvent,
    ConversationItemTruncateEvent, InputAudioBufferAppendEvent, InputAudioBufferClearEvent,
    InputAudioBufferCommitEvent, ResponseCancelEvent, ResponseCreateEvent, SessionUpdateEvent,
    ToText,
};
use serde_json::Value;

fn document(text: &str) -> Value {
    serde_json::from_str(text).unwrap()
}

#[test]
fn session_update_as_text() {
    let event = SessionUpdateEvent { event_id: None, session: document("{\"voice\":\"alloy\"}") };
    assert_eq!(event.to_text(), "{\"type\":\"session.update\",\"session\":{\"voice\":\"alloy\"}}");
    let named = SessionUpdateEvent { event_id: Some("e1".to_string()), session: Value::Null };
    assert_eq!(named.to_text(), "{\"type\":\"session.update\",\"event_id\":\"e1\",\"session\":null}");
}

#[test]
fn audio_append_as_text() {
    let event = InputAudioBufferAppendEvent { event_id: None, audio: "AAEC".to_string() };
    assert_eq!(event.to_text(), "{\"type\":\"input_audio_buffer.append\",\"audio\":\"AAEC\"}");
}

#[test]
fn events_without_fields_as_text() {
    assert_eq!(
        InputAudioBufferCommitEvent { event_id: None }.to_text(),
        "{\"type\":\"input_audio_buffer.commit\"}"
    );
    assert_eq!(
        InputAudioBufferClearEvent { event_id: Some("c".to_string()) }.to_text(),
        "{\"type\":\"input_audio_buffer.clear\",\"event_id\":\"c\"}"
    );
    assert_eq!(ResponseCancelEvent::default().to_text(), "{\"type\":\"response.cancel\"}");
}

#[test]
fn item_create_as_text() {
    let event = ConversationItemCreateEvent {
        event_id: Some("e".to_string()),
        previous_item_id: Some("p".to_string()),
        item: document("{\"role\":\"user\"}"),
    };
    assert_eq!(
        event.to_text(),
        "{\"type\":\"conversation.item.create\",\"event_id\":\"e\",\"previous_item_id\":\"p\",\"item\":{\"role\":\"user\"}}"
    );
}

#[test]
fn item_create_from_an_item() {
    let event = ConversationItemCreateEvent::from(document("[1,2]"));
    assert_eq!(event.event_id, None);
    assert_eq!(event.previous_item_id, None);
    assert_eq!(event.item, document("[1,2]"));
    assert_eq!(event.to_text(), "{\"type\":\"conversation.item.create\",\"item\":[1,2]}");
}

#[test]
fn item_truncate_as_text() {
    let event = ConversationItemTruncateEvent {
        event_id: None,
        item_id: "i".to_string(),
        content_index: 0,
        audio_end_ms: 1500,
    };
    assert_eq!(
        event.to_text(),
        "{\"type\":\"conversation.item.truncate\",\"item_id\":\"i\",\"content_index\":0,\"audio_end_ms\":1500}"
    );
    let edge = ConversationItemTruncateEvent {
        event_id: None,
        item_id: String::new(),
        content_index: 10,
        audio_end_ms: u32::MAX,
    };
    assert_eq!(
        edge.to_text(),
        "{\"type\":\"conversation.item.truncate\",\"item_id\":\"\",\"content_index\":10,\"audio_end_ms\":4294967295}"
    );
    let nine = ConversationItemTruncateEvent {
        event_id: None,
        item_id: String::new(),
        content_index: 9,
        audio_end_ms: 100,
    };
    assert_eq!(
        nine.to_text(),
        "{\"type\":\"conversation.item.truncate\",\"item_id\":\"\",\"content_index\":9,\"audio_end_ms\":100}"
    );
}

#[test]
fn item_delete_as_text() {
    let event = ConversationItemDeleteEvent { event_id: None, item_id: "i7".to_string() };
    assert_eq!(event.to_text(), "{\"type\":\"conversation.item.delete\",\"item_id\":\"i7\"}");
}

#[test]
fn response_create_as_text() {
    assert_eq!(
        ResponseCreateEvent { event_id: None, response: None }.to_text(),
        "{\"type\":\"response.create\",\"response\":null}"
    );
    assert_eq!(
        ResponseCreateEvent { event_id: None, response: Some(document("{\"temperature\":0.5}")) }
            .to_text(),
        "{\"type\":\"response.create\",\"response\":{\"temperature\":0.5}}"
    );
}

#[test]
fn strings_are_escaped() {
    let event = ConversationItemDeleteEvent {
        event_id: Some("a\"b".to_string()),
        item_id: "line\nbreak\\\u{1}".to_string(),
    };
    assert_eq!(
        event.to_text(),
        "{\"type\":\"conversation.item.delete\",\"event_id\":\"a\\\"b\",\"item_id\":\"line\\nbreak\\\\\\u0001\"}"
    );
}

#[test]
fn control_characters_are_escaped_and_others_are_not() {
    let event = InputAudioBufferAppendEvent {
        event_id: None,
        audio: "\u{8}\t\u{c}\r\u{0}\u{b}\u{1f} /\u{7f}\u{e9}\u{1f600}".to_string(),
    };
    assert_eq!(
        event.to_text(),
        "{\"type\":\"input_audio_buffer.append\",\"audio\":\"\\b\\t\\f\\r\\u0000\\u000b\\u001f /\u{7f}\u{e9}\u{1f600}\"}"
    );
}

#[test]
fn text_is_a_document_with_the_same_fields() {
    let event = ConversationItemTruncateEvent {
        event_id: Some("e".to_string()),
        item_id: "i".to_string(),
        content_index: 3,
        audio_end_ms: 42,
    };
    let parsed = document(&event.to_text());
    assert_eq!(parsed["type"], "conversation.item.truncate");
    assert_eq!(parsed["event_id"], "e");
    assert_eq!(parsed["item_id"], "i");
    assert_eq!(parsed["content_index"], 3);
    assert_eq!(parsed["audio_end_ms"], 42);
}

#[test]
fn every_event_struct_converts_into_its_variant() {
    assert!(matches!(ClientEvent::from(SessionUpdateEvent::default()), ClientEvent::SessionUpdate(_)));
    assert!(matches!(
        ClientEvent::from(InputAudioBufferAppendEvent::default()),
        ClientEvent::InputAudioBufferAppend(_)
    ));
    assert!(matches!(
        ClientEvent::from(InputAudioBufferCommitEvent::default()),
        ClientEvent::InputAudioBufferCommit(_)
    ));
    assert!(matches!(
        ClientEvent::from(InputAudioBufferClearEvent::default()),
        ClientEvent::InputAudioBufferClear(_)
    ));
    assert!(matches!(
        ClientEvent::from(ConversationItemCreateEvent::from(Value::Null)),
        ClientEvent::ConversationItemCreate(_)
    ));
    assert!(matches!(
        ClientEvent::from(ConversationItemTruncateEvent::default()),
        ClientEvent::ConversationItemTruncate(_)
    ));
    assert!(matches!(
        ClientEvent::from(ConversationItemDeleteEvent::default()),
        ClientEvent::ConversationItemDelete(_)
    ));
    assert!(matches!(ClientEvent::from(ResponseCreateEvent::default()), ClientEvent::ResponseCreate(_)));
    assert!(matches!(ClientEvent::from(ResponseCancelEvent::default()), ClientEvent::ResponseCancel(_)));
}

#[test]
fn event_and_its_struct_have_the_same_text() {
    let event = ClientEvent::from(InputAudioBufferAppendEvent {
        event_id: Some("x".to_string()),
        audio: "QQ==".to_string(),
    });
    let text: String = (&event).into();
    assert_eq!(text, "{\"type\":\"input_audio_buffer.append\",\"event_id\":\"x\",\"audio\":\"QQ==\"}");
    assert_eq!(event.to_json(), text);
    assert_eq!(event.to_text(), text);
}
