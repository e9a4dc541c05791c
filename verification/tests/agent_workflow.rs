use std::collections::VecDeque;

use taurus::agent::{
    deliver_final_response, latest_user_request, planning_step_copy, research_evidence,
    system_message, AgentStepEvent, AgentStepStatus, StepReporter, FINAL_ANSWER_PROMPT,
    MAX_FINAL_EVIDENCE_CHARACTERS, MAX_TOOL_ROUNDS,
};
use taurus::error::AppError;
use taurus::providers::{
    ChatMessage, ChatRequest, ChatResponse, ChatRole, ChatStreamChunk, ToolCall, ToolFunctionCall,
};
use taurus::research::{AgentAction, AgentEvent, AgentRun};
use taurus::tools::web::WebTools;
use taurus::tools::{ToolExecution, FETCH_WEB_PAGE_TOOL_NAME, SEARCH_WEB_TOOL_NAME};

fn chat_response(content: &str, tool_calls: Vec<ToolCall>) -> ChatResponse {
    ChatResponse {
        provider: "ollama".to_string(),
        model: "test-model".to_string(),
        message: ChatMessage {
            role: ChatRole::Assistant,
            content: content.to_string(),
            tool_calls,
            tool_name: None,
        },
        done: true,
        done_reason: Some("stop".to_string()),
        created_at: None,
    }
}

fn search_tool_call() -> ToolCall {
    ToolCall {
        tool_type: "function".to_string(),
        function: ToolFunctionCall {
            index: Some(0),
            name: "search_web".to_string(),
            arguments: r#"{"query":"Taurus"}"#.to_string(),
        },
    }
}

fn fetch_tool_call() -> ToolCall {
    ToolCall {
        tool_type: "function".to_string(),
        function: ToolFunctionCall {
            index: None,
            name: FETCH_WEB_PAGE_TOOL_NAME.to_string(),
            arguments: r#"{"url":"https://example.com"}"#.to_string(),
        },
    }
}

fn test_request() -> ChatRequest {
    ChatRequest {
        provider: Some("ollama".to_string()),
        model: "test-model".to_string(),
        messages: vec![ChatMessage {
            role: ChatRole::User,
            content: "Find Taurus".to_string(),
            tool_calls: Vec::new(),
            tool_name: None,
        }],
        temperature: Some(0.7f32.to_bits()),
        stream: Some(true),
    }
}

/// A provider that answers planning requests from a queue and the final
/// answer with "Final answer", and a tool executor with canned results.
struct Fakes {
    planning_responses: VecDeque<ChatResponse>,
    final_messages: Vec<ChatMessage>,
    events: Vec<AgentStepEvent>,
    chunks: Vec<ChatStreamChunk>,
    tool_messages: Vec<String>,
    fail_fetches: bool,
}

fn copy_message(message: &ChatMessage) -> ChatMessage {
    ChatMessage {
        role: message.role,
        content: message.content.clone(),
        tool_calls: message
            .tool_calls
            .iter()
            .map(|call| ToolCall {
                tool_type: call.tool_type.clone(),
                function: ToolFunctionCall {
                    index: call.function.index,
                    name: call.function.name.clone(),
                    arguments: call.function.arguments.clone(),
                },
            })
            .collect(),
        tool_name: message.tool_name.clone(),
    }
}

fn execute(call: &ToolCall) -> ToolExecution {
    if call.function.name == FETCH_WEB_PAGE_TOOL_NAME {
        return ToolExecution {
            content: r#"{"url":"https://example.com","title":"Taurus article","content":"Fetched evidence"}"#
                .to_string(),
            detail: "URL: https://example.com\n\nFetched evidence".to_string(),
            follow_up_calls: Vec::new(),
        };
    }
    assert_eq!(call.function.name, SEARCH_WEB_TOOL_NAME);
    ToolExecution {
        content: r#"[{"title":"Taurus","url":"https://example.com","snippet":"Example"}]"#.to_string(),
        detail: "Query: Taurus\n\n1. Taurus\nhttps://example.com\nExample".to_string(),
        follow_up_calls: vec![fetch_tool_call()],
    }
}

fn describe(call: &ToolCall) -> (String, String) {
    if call.function.name == FETCH_WEB_PAGE_TOOL_NAME {
        return ("Reading example.com".to_string(), "URL: https://example.com".to_string());
    }
    ("Searching the web".to_string(), "Query: Taurus".to_string())
}

fn run(fakes: &mut Fakes, request: ChatRequest) -> Result<ChatResponse, AppError> {
    let (mut run, mut action) = AgentRun::start(request);
    loop {
        let event = match action {
            AgentAction::Step(event) => {
                fakes.events.push(event);
                AgentEvent::StepDelivered(Ok(()))
            },
            AgentAction::Plan(request) => {
                assert_eq!(WebTools::definitions().len(), 2);
                assert_eq!(request.stream, Some(false));
                let response = fakes
                    .planning_responses
                    .pop_front()
                    .ok_or_else(|| AppError::ProviderProtocol("Missing fake response.".to_string()));
                AgentEvent::Planned(response)
            },
            AgentAction::Describe(call) => {
                let (label, detail) = describe(&call);
                AgentEvent::Described(label, detail)
            },
            AgentAction::Execute(call) => {
                if fakes.fail_fetches && call.function.name == FETCH_WEB_PAGE_TOOL_NAME {
                    AgentEvent::Executed(Err(AppError::WebTool("The page is gone.".to_string())))
                } else {
                    AgentEvent::Executed(Ok(execute(&call)))
                }
            },
            AgentAction::StreamAnswer(request) => {
                assert_eq!(request.stream, Some(true));
                AgentEvent::Streamed(Ok(chat_response("", Vec::new())))
            },
            AgentAction::RequestAnswer(request) => {
                assert_eq!(request.stream, Some(false));
                fakes.tool_messages = request
                    .messages
                    .iter()
                    .filter(|message| message.role == ChatRole::User)
                    .map(|message| message.content.clone())
                    .collect();
                fakes.final_messages = request.messages.iter().map(copy_message).collect();
                AgentEvent::Answered(Ok(chat_response("Final answer", Vec::new())))
            },
            AgentAction::DeliverChunk(chunk) => {
                fakes.chunks.push(chunk);
                AgentEvent::ChunkDelivered(Ok(()))
            },
            AgentAction::Finish(outcome) => return outcome,
        };
        action = run.advance(event);
    }
}

#[test]
fn planning_steps_change_after_the_first_round() {
    assert_eq!(planning_step_copy(0).0, "Planning the research");
    assert_eq!(planning_step_copy(1).0, "Checking source coverage");
}

#[test]
fn internal_prompts_are_system_messages_without_tools() {
    let message = system_message("test");
    assert_eq!(message.role, ChatRole::System);
    assert!(message.tool_calls.is_empty());
    assert!(message.tool_name.is_none());
}

#[test]
fn step_status_serializes_for_the_frontend() {
    let serialized = serde_json::to_string(AgentStepStatus::Completed.wire_name())
        .expect("step status should serialize");
    assert_eq!(serialized, "\"completed\"");
}

#[test]
fn rejects_an_empty_final_answer() {
    let mut emitted_chunks: Vec<ChatStreamChunk> = Vec::new();
    let error = match deliver_final_response(chat_response("   ", Vec::new())) {
        Ok((chunk, _)) => {
            emitted_chunks.push(chunk);
            panic!("an empty answer must fail");
        },
        Err(error) => error,
    };
    assert!(error.message().contains("without an answer"));
    assert!(emitted_chunks.is_empty());
}

#[test]
fn final_research_evidence_fits_the_model_context_budget() {
    let messages = vec![ChatMessage {
        role: ChatRole::Tool,
        content: "x".repeat(MAX_FINAL_EVIDENCE_CHARACTERS * 2),
        tool_calls: Vec::new(),
        tool_name: Some(FETCH_WEB_PAGE_TOOL_NAME.to_string()),
    }];
    let evidence = research_evidence(&messages);
    assert_eq!(evidence.chars().count(), MAX_FINAL_EVIDENCE_CHARACTERS);
    assert!(evidence.contains("Additional web evidence omitted"));
}

#[test]
fn runs_a_tool_turn_before_delivering_the_final_answer() {
    let mut fakes = Fakes {
        planning_responses: VecDeque::from([
            chat_response("", vec![search_tool_call()]),
            chat_response("Ready", Vec::new()),
        ]),
        final_messages: Vec::new(),
        events: Vec::new(),
        chunks: Vec::new(),
        tool_messages: Vec::new(),
        fail_fetches: false,
    };
    let response = run(&mut fakes, test_request()).expect("agent workflow should finish");
    assert_eq!(response.message.content, "Final answer");
    assert_eq!(fakes.chunks.len(), 1);
    let final_messages = &fakes.final_messages;
    assert_eq!(final_messages[0].role, ChatRole::System);
    assert_eq!(final_messages[0].content, FINAL_ANSWER_PROMPT);
    assert!(final_messages
        .iter()
        .all(|message| message.role != ChatRole::Tool && message.tool_calls.is_empty()));
    let final_handoff = final_messages.last().expect("final handoff should exist");
    assert_eq!(final_handoff.role, ChatRole::User);
    assert!(final_handoff.content.contains("Find Taurus"));
    assert!(final_handoff.content.contains("https://example.com"));
    assert!(final_handoff.content.contains("Fetched evidence"));
    let events = &fakes.events;
    assert!(events.iter().any(|event| {
        event.label == "Searching the web" && event.status == AgentStepStatus::Completed
    }));
    assert!(events.iter().any(|event| {
        event.label == "Reading example.com" && event.status == AgentStepStatus::Completed
    }));
    assert!(events.iter().any(|event| {
        event.label == "Planning the research"
            && event.detail.contains("Next web action")
            && event.detail.contains("Query: Taurus")
    }));
    assert!(events.iter().any(|event| {
        event.label == "Checking source coverage"
            && event.detail.contains("1 search result set(s), 1 fetched page(s)")
            && event.detail.contains("Next: write the final answer")
    }));
    assert!(events.iter().any(|event| {
        event.label == "Writing the answer" && event.status == AgentStepStatus::Completed
    }));
}

#[test]
fn research_limit_still_delivers_the_final_answer() {
    let mut fakes = Fakes {
        planning_responses: (0..MAX_TOOL_ROUNDS)
            .map(|_| chat_response("", vec![search_tool_call()]))
            .collect(),
        final_messages: Vec::new(),
        events: Vec::new(),
        chunks: Vec::new(),
        tool_messages: Vec::new(),
        fail_fetches: false,
    };
    let response =
        run(&mut fakes, test_request()).expect("the research limit must not interrupt the answer");
    assert_eq!(response.message.content, "Final answer");
    let events = &fakes.events;
    assert!(events.iter().any(|event| {
        event.label == "Research limit reached"
            && event.status == AgentStepStatus::Completed
            && event.detail.contains("6 fetched page(s)")
    }));
    assert!(events.iter().any(|event| {
        event.label == "Writing the answer" && event.status == AgentStepStatus::Completed
    }));
}

#[test]
fn latest_user_request_ignores_later_planner_messages() {
    let mut messages = test_request().messages;
    messages.push(chat_response("Ready", Vec::new()).message);
    let request = latest_user_request(&messages).expect("user request should be found");
    assert_eq!(request, "Find Taurus");
}

#[test]
fn a_request_without_a_user_message_ends_at_once() {
    let mut request = test_request();
    request.messages[0].role = ChatRole::Assistant;
    let (_, action) = AgentRun::start(request);
    match action {
        AgentAction::Finish(Err(error)) => {
            assert!(error.message().contains("A user message is required"))
        },
        other => panic!("unexpected action {other:?}"),
    }
}

#[test]
fn step_ids_are_numbered_from_one() {
    let mut fakes = Fakes {
        planning_responses: VecDeque::from([chat_response("Ready", Vec::new())]),
        final_messages: Vec::new(),
        events: Vec::new(),
        chunks: Vec::new(),
        tool_messages: Vec::new(),
        fail_fetches: false,
    };
    run(&mut fakes, test_request()).expect("agent workflow should finish");
    assert_eq!(fakes.events[0].id, "step-1");
    assert_eq!(fakes.events[0].status, AgentStepStatus::Running);
    assert!(fakes.events.iter().all(|event| event.id.starts_with("step-")));
}

#[test]
fn a_planner_failure_ends_the_run_with_that_error() {
    let mut fakes = Fakes {
        planning_responses: VecDeque::new(),
        final_messages: Vec::new(),
        events: Vec::new(),
        chunks: Vec::new(),
        tool_messages: Vec::new(),
        fail_fetches: false,
    };
    let error = run(&mut fakes, test_request()).expect_err("a missing plan must fail");
    assert!(error.message().contains("Missing fake response."));
}

fn fakes(planning_responses: Vec<ChatResponse>, fail_fetches: bool) -> Fakes {
    Fakes {
        planning_responses: planning_responses.into_iter().collect(),
        final_messages: Vec::new(),
        events: Vec::new(),
        chunks: Vec::new(),
        tool_messages: Vec::new(),
        fail_fetches,
    }
}

#[test]
fn the_tool_call_budget_stops_the_research() {
    let many_searches = (0..15).map(|_| search_tool_call()).collect();
    let mut fakes = fakes(vec![chat_response("", many_searches)], false);
    let response = run(&mut fakes, test_request()).expect("the budget must not interrupt the answer");
    assert_eq!(response.message.content, "Final answer");
    let searches = fakes
        .events
        .iter()
        .filter(|event| {
            event.label == "Searching the web" && event.status == AgentStepStatus::Completed
        })
        .count();
    assert_eq!(searches, 12);
    assert!(!fakes.events.iter().any(|event| event.label == "Reading example.com"));
    assert!(fakes.events.iter().any(|event| {
        event.label == "Research limit reached"
            && event.status == AgentStepStatus::Completed
            && event.detail.contains("Browsing stopped after 12 web action(s)")
    }));
}

#[test]
fn a_failed_tool_call_is_reported_and_kept_as_evidence() {
    let mut fakes = fakes(
        vec![chat_response("", vec![search_tool_call()]), chat_response("Ready", Vec::new())],
        true,
    );
    run(&mut fakes, test_request()).expect("a failed fetch must not interrupt the answer");
    assert!(fakes.events.iter().any(|event| {
        event.label == "Reading example.com"
            && event.status == AgentStepStatus::Failed
            && event.detail.contains("The page is gone.")
    }));
    let handoff = fakes.tool_messages.last().expect("final handoff");
    assert!(handoff.contains("The page is gone."));
    assert!(fakes.events.iter().any(|event| {
        event.label == "Checking source coverage"
            && event.detail.contains("1 search result set(s), 0 fetched page(s)")
    }));
}

#[test]
fn an_unexpected_event_ends_the_run_with_a_delivery_error() {
    let (mut run, action) = AgentRun::start(test_request());
    assert!(matches!(action, AgentAction::Step(_)));
    match run.advance(AgentEvent::Described("label".to_string(), "detail".to_string())) {
        AgentAction::Finish(Err(AppError::EventEmit(message))) => assert!(message.is_empty()),
        other => panic!("unexpected action {other:?}"),
    }
    assert!(matches!(run.advance(AgentEvent::StepDelivered(Ok(()))), AgentAction::Plan(_)));
}

#[test]
fn step_reporter_numbers_started_steps_from_one() {
    let mut reporter = StepReporter::new();
    let (first, event) = reporter.start("Planning", "Reading the request");
    assert_eq!(first, "step-1");
    assert_eq!(event.id, "step-1");
    assert_eq!(event.label, "Planning");
    assert_eq!(event.status, AgentStepStatus::Running);
    assert_eq!(event.detail, "Reading the request");
    let done = reporter.complete(&first, "Planning", "Done");
    assert_eq!(done.id, "step-1");
    assert_eq!(done.status, AgentStepStatus::Completed);
    let (second, _) = reporter.start("Searching", "rust");
    let failed = reporter.fail(&second, "Searching", "offline");
    assert_eq!(failed.status, AgentStepStatus::Failed);
    let (third, _) = reporter.start("Reading", "page");
    assert_eq!(second, "step-2");
    assert_eq!(third, "step-3");
}
