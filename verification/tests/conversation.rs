use chat_backend::ai_model::{ChatHistory, ChatMessage, MODEL_ROLE, USER_ROLE};
use chat_backend::ai_repository::history_from_wire;
use chat_backend::wire::{GeminiContent, GeminiPart};

fn message(role: &str, content: &str) -> ChatMessage {
    ChatMessage { role: role.to_string(), content: content.to_string() }
}

#[test]
fn user_message_has_user_role() {
    let m = ChatMessage::user("hi");
    assert_eq!(m.role, "user");
    assert_eq!(m.content, "hi");
}

#[test]
fn assistant_message_has_model_role() {
    let m = ChatMessage::assistant("yo");
    assert_eq!(m.role, "model");
    assert_eq!(m.content, "yo");
}

#[test]
fn role_labels_are_user_and_model() {
    assert_eq!(USER_ROLE, "user");
    assert_eq!(MODEL_ROLE, "model");
}

#[test]
fn new_history_is_empty() {
    assert!(ChatHistory::new().messages.is_empty());
    assert!(ChatHistory::default().messages.is_empty());
}

#[test]
fn add_message_appends_in_order() {
    let mut history = ChatHistory::new();
    history.add_message(ChatMessage::user("hi"));
    history.add_message(ChatMessage::assistant("yo"));
    history.add_message(ChatMessage::user("again"));
    assert_eq!(
        history.messages,
        vec![message("user", "hi"), message("model", "yo"), message("user", "again")]
    );
}

#[test]
fn wire_form_keeps_user_and_maps_every_other_role_to_model() {
    for (label, expected) in [
        ("user", "user"),
        ("assistant", "model"),
        ("model", "model"),
        ("system", "model"),
        ("", "model"),
        ("User", "model"),
        ("user ", "model"),
    ] {
        let content = GeminiContent::from_message(message(label, "text"));
        assert_eq!(content.role, expected, "label {:?}", label);
        assert_eq!(content.parts, vec![GeminiPart { text: "text".to_string() }]);
    }
}

#[test]
fn wire_role_is_stable_under_a_second_conversion() {
    for label in ["user", "assistant", "model", "tool"] {
        let once = GeminiContent::from_message(message(label, "x"));
        let twice = GeminiContent::from_message(once.to_message());
        assert_eq!(once.role, twice.role);
    }
}

#[test]
fn history_round_trip_keeps_count_order_and_content() {
    let mut history = ChatHistory::new();
    history.add_message(message("user", "hi"));
    history.add_message(message("assistant", "yo"));
    let wire: Vec<GeminiContent> =
        history.messages.into_iter().map(GeminiContent::from_message).collect();
    let back = history_from_wire(&wire);
    assert_eq!(back.len(), 2);
    assert_eq!(back[0], message("user", "hi"));
    assert_eq!(back[1].content, "yo");
    assert_eq!(back[1].role, "model");
}

#[test]
fn turn_without_parts_stands_for_an_empty_message() {
    let content = GeminiContent { role: "model".to_string(), parts: vec![] };
    assert_eq!(content.to_message(), message("model", ""));
}

#[test]
fn turn_with_several_parts_stands_for_its_first() {
    let content = GeminiContent {
        role: "user".to_string(),
        parts: vec![GeminiPart { text: "a".to_string() }, GeminiPart { text: "b".to_string() }],
    };
    assert_eq!(content.to_message(), message("user", "a"));
}
