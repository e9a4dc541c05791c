use taurus::chat::{normalize_provider, validate_chat_request, validate_model, validate_temperature};
use taurus::error::{ApiError, AppError, HttpFailure};
use taurus::providers::{ChatMessage, ChatRequest, ChatRole, ToolCall, ToolFunctionCall};

fn valid_request() -> ChatRequest {
    ChatRequest {
        provider: Some("ollama".to_string()),
        model: "llama3".to_string(),
        messages: vec![ChatMessage {
            role: ChatRole::User,
            content: "Hello".to_string(),
            tool_calls: Vec::new(),
            tool_name: None,
        }],
        temperature: Some(0.7f32.to_bits()),
        stream: Some(false),
    }
}

#[test]
fn validate_rejects_empty_model() {
    let mut request = valid_request();
    request.model = "  ".to_string();

    let error = validate_chat_request(request).expect_err("empty model should fail");
    assert!(error.message().contains("model is required"));
}

#[test]
fn validate_accepts_stream_flag() {
    let mut request = valid_request();
    request.stream = Some(true);

    let result = validate_chat_request(request);
    assert!(result.is_ok());
}

#[test]
fn validate_rejects_temperature_out_of_range() {
    let mut low_request = valid_request();
    low_request.temperature = Some((-0.1f32).to_bits());
    let low_error =
        validate_chat_request(low_request).expect_err("temperature below range should fail");
    assert!(low_error.message().contains("between 0.0 and 2.0"));

    let mut high_request = valid_request();
    high_request.temperature = Some(2.1f32.to_bits());
    let high_error =
        validate_chat_request(high_request).expect_err("temperature above range should fail");
    assert!(high_error.message().contains("between 0.0 and 2.0"));
}

#[test]
fn validate_rejects_empty_message_content() {
    let mut request = valid_request();
    request.messages = vec![ChatMessage {
        role: ChatRole::User,
        content: "   ".to_string(),
        tool_calls: Vec::new(),
        tool_name: None,
    }];

    let error = validate_chat_request(request)
        .expect_err("whitespace-only message content should fail");
    assert!(error.message().contains("Message content cannot be empty"));
}

#[test]
fn validate_rejects_frontend_tool_messages() {
    let mut request = valid_request();
    request.messages[0].role = ChatRole::Tool;
    request.messages[0].tool_name = Some("fetch_web_page".to_string());
    let error = validate_chat_request(request).expect_err("tool messages should fail");
    assert!(error.message().contains("managed internally"));
}

#[test]
fn validate_normalizes_and_clears_provider() {
    let mut mixed_case_provider_request = valid_request();
    mixed_case_provider_request.provider = Some("  OLLama  ".to_string());
    let normalized = validate_chat_request(mixed_case_provider_request)
        .expect("mixed-case provider should normalize");
    assert_eq!(normalized.provider.as_deref(), Some("ollama"));

    let mut empty_provider_request = valid_request();
    empty_provider_request.provider = Some("   ".to_string());
    let cleared =
        validate_chat_request(empty_provider_request).expect("empty provider should clear");
    assert!(cleared.provider.is_none());
}

#[test]
fn validation_trims_the_model_and_the_messages() {
    let mut request = valid_request();
    request.model = "  llama3  ".to_string();
    request.messages[0].content = "  Hello there \n".to_string();
    let validated = validate_chat_request(request).expect("request should validate");
    assert_eq!(validated.model, "llama3");
    assert_eq!(validated.messages[0].content, "Hello there");
    assert_eq!(validate_model(" m ").expect("model should validate"), "m");
}

#[test]
fn validation_requires_a_message() {
    let mut request = valid_request();
    request.messages.clear();
    let error = validate_chat_request(request).expect_err("no messages must fail");
    assert_eq!(
        error.message(),
        "Validation error: At least one chat message is required."
    );
}

#[test]
fn validation_refuses_messages_carrying_tool_calls() {
    let mut request = valid_request();
    request.messages[0].tool_calls.push(ToolCall {
        tool_type: "function".to_string(),
        function: ToolFunctionCall {
            index: None,
            name: "search_web".to_string(),
            arguments: "{}".to_string(),
        },
    });
    let error = validate_chat_request(request).expect_err("tool calls must fail");
    assert!(error.message().contains("managed internally"));
}

#[test]
fn temperature_bounds_are_inclusive_and_nan_is_refused() {
    assert!(validate_temperature(None).is_ok());
    assert!(validate_temperature(Some(0.0f32.to_bits())).is_ok());
    assert!(validate_temperature(Some((-0.0f32).to_bits())).is_ok());
    assert!(validate_temperature(Some(2.0f32.to_bits())).is_ok());
    assert!(validate_temperature(Some(f32::NAN.to_bits())).is_err());
    assert!(validate_temperature(Some(f32::INFINITY.to_bits())).is_err());
    assert!(validate_temperature(Some(2.0000002f32.to_bits())).is_err());
}

#[test]
fn provider_normalization_lowercases_and_trims() {
    assert_eq!(normalize_provider(Some(" OpenAI ".to_string())).as_deref(), Some("openai"));
    assert_eq!(normalize_provider(None), None);
}

#[test]
fn errors_map_to_front_end_payloads() {
    let api = ApiError::from_error(AppError::ProviderNotFound("mystery".to_string()));
    assert_eq!(api.code, "provider_not_found");
    assert_eq!(api.message, "Provider 'mystery' is not configured.");
    let api = ApiError::from_error(AppError::HttpClient(HttpFailure::Timeout));
    assert_eq!(api.code, "provider_request_error");
    assert_eq!(api.message, "The provider request timed out. Try again in a moment.");
    let api = ApiError::from_error(AppError::WebTool("Bad page.".to_string()));
    assert_eq!(api.code, "web_tool_error");
    assert_eq!(api.message, "Bad page.");
    assert_eq!(
        AppError::Config("broken".to_string()).message(),
        "Invalid configuration: broken"
    );
}

#[test]
fn validation_is_idempotent_on_a_valid_request() {
    let mut request = valid_request();
    request.model = "  llama3 ".to_string();
    request.provider = Some("  OLLama ".to_string());
    request.messages[0].content = "\t Hello  ".to_string();
    let once = validate_chat_request(request).expect("first validation");
    let (model, provider, content) =
        (once.model.clone(), once.provider.clone(), once.messages[0].content.clone());
    let twice = validate_chat_request(once).expect("second validation");
    assert_eq!(twice.model, model);
    assert_eq!(twice.provider, provider);
    assert_eq!(twice.messages[0].content, content);
    assert_eq!(twice.messages.len(), 1);
}
