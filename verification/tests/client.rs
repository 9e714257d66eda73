use vision::client::{
    image_data_url, ChatContent, ContentPart, ResponseFields, RetryConfig, Temperature,
    UsageFields, VisionClientConfig, VisionModelConfig, VisionRequest, VisionUsage,
};
use vision::json::JsonValue;
use vision::session::{ImageData, MessageRole, VisionSession};

fn temperature(value: f32) -> Temperature {
    Temperature { bits: value.to_bits() }
}

fn config() -> VisionClientConfig {
    VisionClientConfig {
        model: "gpt-4o".to_string(),
        api_key: "test-key".to_string(),
        base_url: "https://api.openai.com/v1".to_string(),
        max_tokens: 4096,
        temperature: temperature(0.7),
        timeout_secs: 120,
    }
}

fn model_config(api_key: Option<&str>, base_url: Option<&str>) -> VisionModelConfig {
    VisionModelConfig {
        model: "gpt-4o".to_string(),
        provider: None,
        api_key: api_key.map(|s| s.to_string()),
        base_url: base_url.map(|s| s.to_string()),
        max_tokens: 4096,
        temperature: temperature(0.7),
        subagent_mode: true,
        timeout_secs: 120,
    }
}

#[test]
fn test_vision_request_builder() {
    let request = VisionRequest::new("Describe this image", "base64encodeddata", "image/png")
        .with_system_message("You are a helpful assistant")
        .with_max_tokens(1000)
        .with_temperature(temperature(0.5));

    assert_eq!(request.prompt, "Describe this image");
    assert_eq!(request.image_base64, "base64encodeddata");
    assert_eq!(request.image_mime_type, "image/png");
    assert_eq!(request.system_message, Some("You are a helpful assistant".to_string()));
    assert_eq!(request.max_tokens, Some(1000));
    assert_eq!(request.temperature.map(|t| f32::from_bits(t.bits)), Some(0.5));
}

#[test]
fn new_request_has_no_overrides() {
    let request = VisionRequest::new("p", "d", "image/gif");
    assert_eq!(request.system_message, None);
    assert_eq!(request.max_tokens, None);
    assert_eq!(request.temperature, None);
}

#[test]
fn config_from_fills_defaults() {
    let resolved = VisionClientConfig::from(model_config(None, None));
    assert_eq!(resolved.model, "gpt-4o");
    assert_eq!(resolved.api_key, "");
    assert_eq!(resolved.base_url, "https://api.openai.com/v1");
    assert_eq!(resolved.max_tokens, 4096);
    assert_eq!(resolved.temperature, temperature(0.7));
    assert_eq!(resolved.timeout_secs, 120);
}

#[test]
fn config_from_keeps_given_values() {
    let resolved = VisionClientConfig::from(model_config(
        Some("sk-ant-xxxxx"),
        Some("https://api.anthropic.com/v1"),
    ));
    assert_eq!(resolved.api_key, "sk-ant-xxxxx");
    assert_eq!(resolved.base_url, "https://api.anthropic.com/v1");
}

#[test]
fn endpoint_and_authorization() {
    let c = config();
    assert_eq!(c.completions_url(), "https://api.openai.com/v1/chat/completions");
    assert_eq!(c.authorization_value(), "Bearer test-key");
}

#[test]
fn data_url_format() {
    assert_eq!(image_data_url("image/png", "AAAA"), "data:image/png;base64,AAAA");
}

fn user_parts(content: &ChatContent) -> (String, String) {
    match content {
        ChatContent::Parts(parts) => {
            assert_eq!(parts.len(), 2);
            let text = match &parts[0] {
                ContentPart::Text(t) => t.clone(),
                _ => panic!("first part is not text"),
            };
            let url = match &parts[1] {
                ContentPart::ImageUrl(u) => u.clone(),
                _ => panic!("second part is not an image"),
            };
            (text, url)
        }
        ChatContent::Text(_) => panic!("user message is not multi-part"),
    }
}

#[test]
fn payload_without_system_message() {
    let request = VisionRequest::new("What is this?", "QUJD", "image/jpeg");
    let payload = config().build_payload(&request, 10, temperature(0.1));
    assert_eq!(payload.model, "gpt-4o");
    assert_eq!(payload.max_tokens, 10);
    assert_eq!(payload.temperature, temperature(0.1));
    assert_eq!(payload.messages.len(), 1);
    assert_eq!(payload.messages[0].role, MessageRole::User);
    let (text, url) = user_parts(&payload.messages[0].content);
    assert_eq!(text, "What is this?");
    assert_eq!(url, "data:image/jpeg;base64,QUJD");
}

#[test]
fn payload_with_system_message_first() {
    let request = VisionRequest::new("Describe", "Zm9v", "image/png").with_system_message("Be brief");
    let payload = config().build_payload(&request, 100, temperature(0.2));
    assert_eq!(payload.messages.len(), 2);
    assert_eq!(payload.messages[0].role, MessageRole::System);
    match &payload.messages[0].content {
        ChatContent::Text(t) => assert_eq!(t, "Be brief"),
        _ => panic!("system message is not text"),
    }
    assert_eq!(payload.messages[1].role, MessageRole::User);
    let (text, url) = user_parts(&payload.messages[1].content);
    assert_eq!(text, "Describe");
    assert_eq!(url, "data:image/png;base64,Zm9v");
}

#[test]
fn request_payload_uses_configured_defaults() {
    let request = VisionRequest::new("p", "d", "image/png");
    let payload = config().request_payload(&request);
    assert_eq!(payload.max_tokens, 4096);
    assert_eq!(payload.temperature, temperature(0.7));
}

#[test]
fn request_payload_prefers_request_overrides() {
    let request = VisionRequest::new("p", "d", "image/png")
        .with_max_tokens(1000)
        .with_temperature(temperature(0.5));
    let payload = config().request_payload(&request);
    assert_eq!(payload.max_tokens, 1000);
    assert_eq!(payload.temperature, temperature(0.5));
}

#[test]
fn parse_full_response() {
    let raw = serde_json::Value::String("raw".to_string());
    let fields = ResponseFields {
        content: Some("A cat".to_string()),
        usage: Some(UsageFields {
            prompt_tokens: Some(12),
            completion_tokens: Some(3),
            total_tokens: Some(15),
        }),
        model: Some("gpt-4o-2024".to_string()),
    };
    let response = config().response_from_fields(fields, raw.clone());
    assert_eq!(response.content, "A cat");
    assert_eq!(
        response.usage,
        Some(VisionUsage { prompt_tokens: 12, completion_tokens: 3, total_tokens: 15 })
    );
    assert_eq!(response.model, "gpt-4o-2024");
    assert_eq!(response.raw_response, Some(raw));
}

#[test]
fn parse_sparse_response_uses_defaults() {
    let fields = ResponseFields {
        content: None,
        usage: Some(UsageFields {
            prompt_tokens: None,
            completion_tokens: Some((1u64 << 32) + 5),
            total_tokens: None,
        }),
        model: None,
    };
    let response = config().response_from_fields(fields, serde_json::Value::Null);
    assert_eq!(response.content, "");
    assert_eq!(
        response.usage,
        Some(VisionUsage { prompt_tokens: 0, completion_tokens: 5, total_tokens: 0 })
    );
    assert_eq!(response.model, "gpt-4o");
}

#[test]
fn parse_response_without_usage() {
    let fields = ResponseFields {
        content: Some("x".to_string()),
        usage: None,
        model: None,
    };
    assert_eq!(config().response_from_fields(fields, serde_json::Value::Null).usage, None);
}

#[test]
fn retry_schedule_doubles_up_to_the_limit() {
    let retry = RetryConfig::vision_default();
    assert_eq!(retry.delay_before_retry(0), Some(1));
    assert_eq!(retry.delay_before_retry(1), Some(2));
    assert_eq!(retry.delay_before_retry(2), Some(4));
    assert_eq!(retry.delay_before_retry(3), None);
    let capped = RetryConfig { max_retries: 10, initial_delay_secs: 1, max_delay_secs: 30 };
    assert_eq!(capped.delay_before_retry(4), Some(16));
    assert_eq!(capped.delay_before_retry(5), Some(30));
    assert_eq!(capped.delay_before_retry(9), Some(30));
    let huge = RetryConfig { max_retries: 100, initial_delay_secs: u64::MAX / 2 + 1, max_delay_secs: u64::MAX };
    assert_eq!(huge.delay_before_retry(1), Some(u64::MAX));
}

#[test]
fn payload_carries_earlier_turns_in_order() {
    let mut session = VisionSession::new(config(), None);
    session.add_user_message("q1", Some(ImageData::from_base64("AAAA".to_string(), "image/gif".to_string())));
    session.add_assistant_message("a1");
    let history = session.conversation_history.clone();
    let request = VisionRequest::new("q2", "BBBB", "image/png")
        .with_history(history)
        .with_system_message("sys");
    assert_eq!(request.history.len(), 2);
    let payload = config().build_payload(&request, 10, temperature(0.1));
    assert_eq!(payload.messages.len(), 4);
    assert_eq!(payload.messages[0].role, MessageRole::System);
    assert_eq!(payload.messages[1].role, MessageRole::User);
    let (text, url) = user_parts(&payload.messages[1].content);
    assert_eq!(text, "q1");
    assert_eq!(url, "data:image/gif;base64,AAAA");
    assert_eq!(payload.messages[2].role, MessageRole::Assistant);
    match &payload.messages[2].content {
        ChatContent::Text(t) => assert_eq!(t, "a1"),
        _ => panic!("assistant turn is not text"),
    }
    let (text, url) = user_parts(&payload.messages[3].content);
    assert_eq!(text, "q2");
    assert_eq!(url, "data:image/png;base64,BBBB");
}

fn text(s: &str) -> JsonValue {
    JsonValue::Text(s.to_string())
}

fn object(members: Vec<(&str, JsonValue)>) -> JsonValue {
    JsonValue::Object(members.into_iter().map(|(k, v)| (k.to_string(), v)).collect())
}

#[test]
fn parse_full_reply_body() {
    let body = object(vec![
        ("model", text("gpt-4o-mini")),
        (
            "choices",
            JsonValue::Array(vec![object(vec![("message", object(vec![("content", text("A cat"))]))])]),
        ),
        (
            "usage",
            object(vec![
                ("prompt_tokens", JsonValue::Number(Some(10))),
                ("completion_tokens", JsonValue::Number(Some(5))),
                ("total_tokens", JsonValue::Number(Some(15))),
            ]),
        ),
    ]);
    let raw = serde_json::Value::String("body".to_string());
    let response = config().parse_response(&body, raw.clone());
    assert_eq!(response.content, "A cat");
    assert_eq!(response.model, "gpt-4o-mini");
    assert_eq!(
        response.usage,
        Some(VisionUsage { prompt_tokens: 10, completion_tokens: 5, total_tokens: 15 })
    );
    assert_eq!(response.raw_response, Some(raw));
}

#[test]
fn parse_empty_reply_body() {
    let response = config().parse_response(&object(vec![]), serde_json::Value::Null);
    assert_eq!(response.content, "");
    assert_eq!(response.usage, None);
    assert_eq!(response.model, "gpt-4o");
}

#[test]
fn parse_reply_with_odd_fields() {
    let body = object(vec![
        ("model", JsonValue::Number(Some(3))),
        ("choices", JsonValue::Array(vec![object(vec![("message", object(vec![("content", JsonValue::Null)]))])])),
        (
            "usage",
            object(vec![
                ("prompt_tokens", text("ten")),
                ("completion_tokens", JsonValue::Number(None)),
            ]),
        ),
    ]);
    let response = config().parse_response(&body, serde_json::Value::Null);
    assert_eq!(response.content, "");
    assert_eq!(response.model, "gpt-4o");
    assert_eq!(
        response.usage,
        Some(VisionUsage { prompt_tokens: 0, completion_tokens: 0, total_tokens: 0 })
    );
}

#[test]
fn reply_content_comes_from_the_first_choice() {
    let body = object(vec![(
        "choices",
        JsonValue::Array(vec![
            object(vec![("message", object(vec![("content", text("first"))]))]),
            object(vec![("message", object(vec![("content", text("second"))]))]),
        ]),
    )]);
    let fields = vision::json::reply_fields(&body);
    assert_eq!(fields.content, Some("first".to_string()));
    assert!(fields.usage.is_none());
    assert_eq!(fields.model, None);
    let not_a_list = object(vec![("choices", object(vec![("0", text("x"))]))]);
    assert_eq!(vision::json::reply_fields(&not_a_list).content, None);
}
