use taurus::error::AppError;
use taurus::providers::ollama::{
    ensure_ollama_success, map_models, map_ollama_response, parse_chat_role, payload_failure, provider_client_settings,
    resolve_base_url,
    status_failure, OllamaChatMessageResponse, OllamaChatResponse, OllamaModel, OllamaOperation,
    OllamaPayload, OllamaProvider, OllamaStreamAccumulator, OllamaTagsResponse,
};
use taurus::providers::{
    find_provider, ChatMessage, ChatRequest, ChatRole, ChatStreamChunk, ToolCall, ToolFunctionCall,
};

/// Reads one line of the Ollama protocol into the library's reply type.
fn reply_from_json(line: &str) -> OllamaChatResponse {
    let value: serde_json::Value = serde_json::from_str(line).expect("line should be JSON");
    let text = |field: &serde_json::Value| field.as_str().map(str::to_string);
    let message = &value["message"];
    let tool_calls = message["tool_calls"]
        .as_array()
        .map(|calls| {
            calls
                .iter()
                .map(|call| ToolCall {
                    tool_type: text(&call["type"]).unwrap_or_else(|| "function".to_string()),
                    function: ToolFunctionCall {
                        index: call["function"]["index"].as_u64().map(|index| index as usize),
                        name: text(&call["function"]["name"]).expect("tool name"),
                        arguments: call["function"]["arguments"].to_string(),
                    },
                })
                .collect()
        })
        .unwrap_or_default();
    OllamaChatResponse {
        model: text(&value["model"]).expect("model"),
        created_at: text(&value["created_at"]),
        message: OllamaChatMessageResponse {
            role: text(&message["role"]).expect("role"),
            content: text(&message["content"]).unwrap_or_default(),
            tool_calls,
            tool_name: text(&message["tool_name"]),
        },
        done: value["done"].as_bool().expect("done"),
        done_reason: text(&value["done_reason"]),
    }
}

/// Frames and records every complete line the accumulator holds.
fn drain(
    accumulator: &mut OllamaStreamAccumulator,
    emitted: &mut Vec<ChatStreamChunk>,
) -> Result<(), AppError> {
    while let Some(line) = accumulator.next_line() {
        if let Some(text) = line? {
            emitted.push(accumulator.record(reply_from_json(&text)));
        }
    }
    Ok(())
}

#[test]
fn resolve_base_url_accepts_http_without_trailing_slash() {
    let resolved = resolve_base_url("http://localhost:11434").expect("url should parse");
    assert_eq!(resolved.href, "http://localhost:11434/");
}

#[test]
fn resolve_base_url_rejects_empty_values() {
    let error = resolve_base_url("   ").expect_err("empty URLs must fail");
    assert!(error.message().contains("cannot be empty"));
}

#[test]
fn resolve_base_url_rejects_unsupported_scheme() {
    let error = resolve_base_url("ftp://localhost:11434").expect_err("scheme must fail");
    assert!(error.message().contains("http or https"));
}

#[test]
fn map_models_prefers_model_field_when_present() {
    let payload = OllamaTagsResponse {
        models: vec![OllamaModel {
            name: "llama3.1:8b".to_string(),
            model: Some("llama3.1:8b-q4".to_string()),
            modified_at: Some("2026-01-01T00:00:00Z".to_string()),
            size: Some(123),
        }],
    };

    let models = map_models(payload);
    assert_eq!(models.len(), 1);
    assert_eq!(models[0].display_name, "llama3.1:8b");
    assert_eq!(models[0].id, "llama3.1:8b-q4");
    assert_eq!(models[0].size_bytes, Some(123));
}

#[test]
fn maps_tool_calls_from_ollama_response() {
    let payload = reply_from_json(
        r#"{
            "model":"qwen3",
            "message":{
                "role":"assistant",
                "content":"",
                "tool_calls":[{
                    "type":"function",
                    "function":{"index":0,"name":"search_web","arguments":{"query":"Taurus app"}}
                }]
            },
            "done":true,
            "done_reason":"stop"
        }"#,
    );
    let response = map_ollama_response(payload).expect("tool response should map");
    assert_eq!(response.message.tool_calls.len(), 1);
    assert_eq!(response.message.tool_calls[0].function.index, Some(0));
    assert_eq!(response.message.tool_calls[0].function.name, "search_web");
    let arguments: serde_json::Value =
        serde_json::from_str(&response.message.tool_calls[0].function.arguments)
            .expect("arguments are JSON");
    assert_eq!(arguments["query"], "Taurus app");
}

#[test]
fn stream_parsing_handles_fragmented_utf8_and_multiple_lines() {
    let first_line = r#"{"model":"llama3.1:8b","created_at":"2026-01-01T00:00:00Z","message":{"role":"assistant","content":"Olá "},"done":false,"done_reason":null}"#;
    let second_line = r#"{"model":"llama3.1:8b","created_at":"2026-01-01T00:00:01Z","message":{"role":"assistant","content":"世界"},"done":true,"done_reason":"stop"}"#;
    let payload = format!("{first_line}\n{second_line}\n");
    let bytes = payload.as_bytes();
    let split_index = bytes
        .iter()
        .position(|byte| *byte == 0xC3)
        .expect("payload should contain a multi-byte UTF-8 lead byte");
    let first_newline_index = bytes
        .iter()
        .position(|byte| *byte == b'\n')
        .expect("payload should contain a newline");
    let chunks: Vec<&[u8]> = vec![
        &bytes[..split_index + 1],
        &bytes[split_index + 1..first_newline_index - 2],
        &bytes[first_newline_index - 2..first_newline_index + 1],
        &bytes[first_newline_index + 1..],
    ];
    let mut emitted_chunks: Vec<ChatStreamChunk> = Vec::new();
    let mut accumulator = OllamaStreamAccumulator::new();
    for chunk in chunks {
        accumulator.push(chunk);
        drain(&mut accumulator, &mut emitted_chunks).expect("stream chunk should accumulate");
    }
    if let Some(line) = accumulator.take_trailing() {
        if let Some(text) = line.expect("trailing line") {
            emitted_chunks.push(accumulator.record(reply_from_json(&text)));
        }
    }
    let final_response = accumulator.finish().expect("stream should finish");
    assert_eq!(final_response.message.content, "Olá 世界");
    assert_eq!(emitted_chunks.len(), 2);
    assert_eq!(emitted_chunks[0].delta, "Olá ");
    assert_eq!(emitted_chunks[1].delta, "世界");
}

#[test]
fn a_stream_without_a_final_newline_is_finished_from_its_trailing_line() {
    let line = r#"{"model":"m","message":{"role":"assistant","content":"tail"},"done":true}"#;
    let mut accumulator = OllamaStreamAccumulator::new();
    let mut emitted = Vec::new();
    accumulator.push(b"\n  \n");
    accumulator.push(line.as_bytes());
    drain(&mut accumulator, &mut emitted).expect("blank lines are skipped");
    assert!(emitted.is_empty());
    let trailing = accumulator.take_trailing().expect("a trailing line").expect("valid UTF-8");
    emitted.push(accumulator.record(reply_from_json(&trailing.expect("not blank"))));
    assert!(accumulator.take_trailing().is_none());
    let response = accumulator.finish().expect("stream should finish");
    assert_eq!(response.message.content, "tail");
    assert_eq!(response.done_reason, None);
    assert_eq!(emitted.len(), 1);
}

#[test]
fn broken_and_empty_streams_are_refused() {
    let mut accumulator = OllamaStreamAccumulator::new();
    accumulator.push(&[0xff, 0xfe, b'\n']);
    let error = accumulator
        .next_line()
        .expect("a line")
        .expect_err("invalid UTF-8 must fail");
    assert!(error.message().contains("Could not decode Ollama stream line as UTF-8"));
    let error = OllamaStreamAccumulator::new().finish().expect_err("empty stream");
    assert_eq!(
        error.message(),
        "Provider returned invalid data: Ollama returned an empty stream response."
    );
}

#[test]
fn roles_are_read_by_name() {
    assert_eq!(parse_chat_role("tool").expect("tool"), ChatRole::Tool);
    assert_eq!(parse_chat_role("system").expect("system"), ChatRole::System);
    let error = parse_chat_role("robot").expect_err("unknown role");
    assert!(error.message().contains("Unsupported role returned by provider: 'robot'."));
}

#[test]
fn chat_request_bodies_carry_every_message() {
    let request = ChatRequest {
        provider: None,
        model: "m".to_string(),
        messages: vec![
            ChatMessage {
                role: ChatRole::System,
                content: "s".to_string(),
                tool_calls: Vec::new(),
                tool_name: None,
            },
            ChatMessage {
                role: ChatRole::Tool,
                content: "t".to_string(),
                tool_calls: Vec::new(),
                tool_name: Some("search_web".to_string()),
            },
        ],
        temperature: Some(0.5f32.to_bits()),
        stream: None,
    };
    let body = OllamaProvider::build_chat_request_body(request, true, Vec::new());
    assert_eq!(body.model, "m");
    assert!(body.stream);
    assert_eq!(body.messages.len(), 2);
    assert_eq!(body.messages[0].role, "system");
    assert_eq!(body.messages[1].role, "tool");
    assert_eq!(body.messages[1].tool_name.as_deref(), Some("search_web"));
    assert_eq!(f32::from_bits(body.options.expect("options").temperature), 0.5);
}

#[test]
fn provider_endpoints_and_failures_are_reported() {
    let provider = OllamaProvider::new(Some("https://ollama.example:8443/base")).expect("provider");
    assert_eq!(provider.base_url.href, "https://ollama.example:8443/base/");
    let endpoint = provider.endpoint("api/chat").expect("endpoint");
    assert_eq!(endpoint.href, "https://ollama.example:8443/base/api/chat");
    let health = provider.reachable_health();
    assert!(health.healthy);
    assert_eq!(health.base_url, "https://ollama.example:8443/base/");
    assert_eq!(health.message.as_deref(), Some("Ollama is reachable."));
    let error = provider.unreachable("connection refused");
    assert_eq!(
        error.message(),
        "Provider is unavailable: Could not reach Ollama at 'https://ollama.example:8443/base/': connection refused"
    );
    let default = OllamaProvider::new(None).expect("default provider");
    assert_eq!(default.base_url.href, "http://localhost:11434/");
    assert_eq!(default.client_settings.connect_timeout_secs, 5);
    assert_eq!(provider_client_settings().connect_timeout_secs, 5);
    let error = status_failure(OllamaOperation::Chat, "404 Not Found");
    assert!(error.message().ends_with(
        "Ollama chat request failed with HTTP status 404 Not Found. Ensure the selected model supports tool calling."
    ));
    let error = status_failure(OllamaOperation::HealthCheck, "500 Internal Server Error");
    assert!(error.message().ends_with("failed with HTTP status 500 Internal Server Error."));
    let error = payload_failure(OllamaPayload::ModelList, "EOF");
    assert_eq!(
        error.message(),
        "Provider returned invalid data: Could not parse Ollama model response: EOF"
    );
}

#[test]
fn stream_lines_do_not_depend_on_chunk_boundaries() {
    let first = r#"{"model":"m","message":{"role":"assistant","content":"Grüße, "},"done":false}"#;
    let second = r#"{"model":"m","message":{"role":"assistant","content":"мир"},"done":true,"done_reason":"stop"}"#;
    let payload = format!("{first}\n\n{second}\n");
    let deltas = |chunk_size: usize| -> (Vec<String>, String) {
        let mut accumulator = OllamaStreamAccumulator::new();
        let mut emitted = Vec::new();
        for chunk in payload.as_bytes().chunks(chunk_size) {
            accumulator.push(chunk);
            drain(&mut accumulator, &mut emitted).expect("lines should frame");
        }
        assert!(accumulator.take_trailing().is_none());
        let response = accumulator.finish().expect("stream should finish");
        (emitted.into_iter().map(|chunk| chunk.delta).collect(), response.message.content)
    };
    let whole = deltas(payload.len());
    assert_eq!(whole.0, vec!["Grüße, ".to_string(), "мир".to_string()]);
    assert_eq!(whole.1, "Grüße, мир");
    for size in [1, 2, 3, 7] {
        assert_eq!(deltas(size), whole);
    }
}

#[test]
fn replies_are_accepted_only_with_a_success_status() {
    assert!(ensure_ollama_success(OllamaOperation::ListModels, 200, "200 OK").is_ok());
    assert!(ensure_ollama_success(OllamaOperation::Chat, 299, "299").is_ok());
    let error = ensure_ollama_success(OllamaOperation::HealthCheck, 503, "503 Service Unavailable")
        .expect_err("503");
    assert_eq!(
        error.message(),
        "Provider is unavailable: Ollama health check failed with HTTP status 503 Service Unavailable."
    );
}

#[test]
fn only_the_configured_provider_is_found() {
    assert_eq!(find_provider(None).expect("default"), "ollama");
    assert_eq!(find_provider(Some("  OLLAMA ")).expect("ollama"), "ollama");
    let error = find_provider(Some(" OpenAI ")).expect_err("unknown provider");
    assert_eq!(error.message(), "Unknown provider: openai");
}
