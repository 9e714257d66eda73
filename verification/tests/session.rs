use vision::client::{Temperature, VisionClientConfig, VisionResponse, VisionUsage};
use vision::session::{ImageData, MessageRole, SessionMetadata, VisionSession};

fn test_config() -> VisionClientConfig {
    VisionClientConfig {
        model: "gpt-4o".to_string(),
        api_key: "test-key".to_string(),
        base_url: "https://api.openai.com/v1".to_string(),
        max_tokens: 4096,
        temperature: Temperature { bits: 0.7f32.to_bits() },
        timeout_secs: 120,
    }
}

fn response(content: &str, usage: Option<u32>) -> VisionResponse {
    VisionResponse {
        content: content.to_string(),
        usage: usage.map(|t| VisionUsage { prompt_tokens: 1, completion_tokens: 2, total_tokens: t }),
        model: "gpt-4o".to_string(),
        raw_response: None,
    }
}

fn roles(session: &VisionSession) -> Vec<MessageRole> {
    session.history().iter().map(|m| m.role).collect()
}

fn contents(session: &VisionSession) -> Vec<String> {
    session.history().iter().map(|m| m.content.clone()).collect()
}

#[test]
fn test_vision_session_creation() {
    let config = test_config();
    let session = VisionSession::new(config, Some("Test session".to_string()));

    assert_eq!(session.conversation_history.len(), 0);
    assert_eq!(session.metadata.description, Some("Test session".to_string()));
}

#[test]
fn test_vision_session_messages() {
    let config = test_config();
    let mut session = VisionSession::new(config, None);

    session.add_system_message("You are a helpful assistant");
    session.add_user_message("Hello", None);
    session.add_assistant_message("Hi there!");

    assert_eq!(session.conversation_history.len(), 3);
    assert_eq!(session.conversation_history[0].role, MessageRole::System);
    assert_eq!(session.conversation_history[1].role, MessageRole::User);
    assert_eq!(session.conversation_history[2].role, MessageRole::Assistant);
}

#[test]
fn sessions_get_distinct_random_ids() {
    let a = VisionSession::new(test_config(), None);
    let b = VisionSession::new(test_config(), None);
    assert_eq!(a.id.len(), 36);
    let chars: Vec<char> = a.id.chars().collect();
    for (i, c) in chars.iter().enumerate() {
        if i == 8 || i == 13 || i == 18 || i == 23 {
            assert_eq!(*c, '-');
        } else {
            assert!(c.is_ascii_digit() || ('a'..='f').contains(c));
        }
    }
    assert_eq!(chars[14], '4');
    assert!("89ab".contains(chars[19]));
    assert_eq!(a.created_at, a.last_activity);
    assert_ne!(a.id, b.id);
}

#[test]
fn session_with_given_id() {
    let session = VisionSession::with_id("abc", test_config(), Some("d".to_string()));
    assert_eq!(session.id, "abc");
    assert_eq!(session.metadata.total_requests, 0);
    assert_eq!(session.metadata.total_tokens_used, 0);
    assert_eq!(session.metadata.parent_session_id, None);
    assert_eq!(session.config.model, "gpt-4o");
}

#[test]
fn metadata_default_is_empty() {
    let m = SessionMetadata::default();
    assert_eq!(m.total_requests, 0);
    assert_eq!(m.total_tokens_used, 0);
    assert_eq!(m.description, None);
    assert_eq!(m.parent_session_id, None);
}

#[test]
fn user_message_keeps_its_image() {
    let mut session = VisionSession::new(test_config(), None);
    let image = ImageData::from_base64("QUJD".to_string(), "image/png".to_string());
    session.add_user_message("look", Some(image));
    let stored = session.history()[0].image_data.as_ref().unwrap();
    assert_eq!(stored.base64_data, "QUJD");
    assert_eq!(stored.mime_type, "image/png");
    assert_eq!(stored.description, None);
}

#[test]
fn clear_history_keeps_system_messages_in_order() {
    let mut session = VisionSession::new(test_config(), None);
    session.add_system_message("s1");
    session.add_user_message("u1", None);
    session.add_assistant_message("a1");
    session.add_system_message("s2");
    session.add_user_message("u2", None);
    session.clear_history();
    assert_eq!(contents(&session), vec!["s1", "s2"]);
    assert_eq!(roles(&session), vec![MessageRole::System, MessageRole::System]);
    session.clear_history();
    assert_eq!(contents(&session), vec!["s1", "s2"]);
}

#[test]
fn set_system_message_replaces_all_system_messages() {
    let mut session = VisionSession::new(test_config(), None);
    session.add_system_message("old one");
    session.add_user_message("u1", None);
    session.add_system_message("old two");
    session.add_assistant_message("a1");
    session.set_system_message("new");
    assert_eq!(contents(&session), vec!["u1", "a1", "new"]);
    assert_eq!(session.first_system_message(), Some("new".to_string()));
    session.clear_history();
    assert_eq!(contents(&session), vec!["new"]);
}

#[test]
fn first_system_message_is_the_earliest() {
    let mut session = VisionSession::new(test_config(), None);
    assert_eq!(session.first_system_message(), None);
    session.add_user_message("u", None);
    session.add_system_message("first");
    session.add_system_message("second");
    assert_eq!(session.first_system_message(), Some("first".to_string()));
}

#[test]
fn update_usage_counts_requests_and_tokens() {
    let mut session = VisionSession::new(test_config(), None);
    session.update_usage(&response("x", Some(15)));
    session.update_usage(&response("y", None));
    assert_eq!(session.metadata.total_requests, 2);
    assert_eq!(session.metadata.total_tokens_used, 15);
    assert_eq!(session.history().len(), 0);
}

#[test]
fn turn_with_image_and_system_message() {
    let mut session = VisionSession::new(test_config(), None);
    session.add_system_message("Be precise");
    let image = ImageData::from_base64("Zm9v".to_string(), "image/webp".to_string());
    let request = session.begin_turn("What is shown?", Some(image));
    assert_eq!(request.prompt, "What is shown?");
    assert_eq!(request.image_base64, "Zm9v");
    assert_eq!(request.image_mime_type, "image/webp");
    assert_eq!(request.system_message, Some("Be precise".to_string()));
    assert_eq!(request.max_tokens, None);
    assert_eq!(request.temperature, None);
    session.finish_turn(&response("A fox", Some(42)));
    assert_eq!(contents(&session), vec!["Be precise", "What is shown?", "A fox"]);
    assert_eq!(
        roles(&session),
        vec![MessageRole::System, MessageRole::User, MessageRole::Assistant]
    );
    assert!(session.history()[1].image_data.is_some());
    assert_eq!(session.metadata.total_requests, 1);
    assert_eq!(session.metadata.total_tokens_used, 42);
}

#[test]
fn text_only_turn_uses_placeholder_image() {
    let mut session = VisionSession::new(test_config(), None);
    let request = session.begin_turn("Hello", None);
    assert_eq!(request.image_base64, "");
    assert_eq!(request.image_mime_type, "text/plain");
    assert_eq!(request.system_message, None);
    assert!(session.history()[0].image_data.is_none());
}

#[test]
fn summary_reports_counts() {
    let mut session = VisionSession::with_id("sid", test_config(), Some("desc".to_string()));
    session.add_user_message("u", None);
    session.update_usage(&response("r", Some(7)));
    let summary = session.summary();
    assert_eq!(summary.id, "sid");
    assert_eq!(summary.message_count, 1);
    assert_eq!(summary.total_requests, 1);
    assert_eq!(summary.total_tokens, 7);
    assert_eq!(summary.description, Some("desc".to_string()));
    assert!(summary.idle_secs <= summary.duration_secs + 1);
}

#[test]
fn later_turns_carry_earlier_turns_as_context() {
    let mut session = VisionSession::new(test_config(), None);
    session.add_system_message("sys");
    let first = session.begin_turn("first question", None);
    assert!(first.history.is_empty());
    session.finish_turn(&response("first answer", None));
    let image = ImageData::from_base64("QUJD".to_string(), "image/png".to_string());
    let second = session.begin_turn("second question", Some(image));
    assert_eq!(second.system_message, Some("sys".to_string()));
    let context: Vec<(MessageRole, String)> =
        second.history.iter().map(|m| (m.role, m.content.clone())).collect();
    assert_eq!(
        context,
        vec![
            (MessageRole::User, "first question".to_string()),
            (MessageRole::Assistant, "first answer".to_string()),
        ]
    );
    session.finish_turn(&response("second answer", None));
    let third = session.begin_turn("third", None);
    assert_eq!(third.history.len(), 4);
    assert_eq!(third.history[2].image_data.as_ref().unwrap().base64_data, "QUJD");
}

#[test]
fn message_timestamps_are_well_formed() {
    let mut session = VisionSession::new(test_config(), None);
    session.add_user_message("u", None);
    let t = session.history()[0].timestamp;
    assert!(t.secs > 0);
    assert!(t.nanos < 1_000_000_000);
}

#[test]
fn cloned_session_is_an_independent_copy() {
    let mut session = VisionSession::with_id("orig", test_config(), Some("d".to_string()));
    session.add_user_message("u", None);
    let mut copy = session.clone();
    assert_eq!(copy.id, "orig");
    assert_eq!(copy.history().len(), 1);
    assert_eq!(copy.metadata.description, Some("d".to_string()));
    copy.add_assistant_message("only in the copy");
    assert_eq!(session.history().len(), 1);
    assert_eq!(copy.history().len(), 2);
}

#[test]
fn summary_at_places_the_elapsed_seconds() {
    let session = VisionSession::with_id("s", test_config(), None);
    let summary = session.summary_at(90, 30);
    assert_eq!(summary.duration_secs, 90);
    assert_eq!(summary.idle_secs, 30);
    assert_eq!(summary.id, "s");
    assert_eq!(summary.message_count, 0);
}
