//! The Ollama provider: where its server is, what is sent to it, and how its
//! replies (whole or streamed as JSON lines) become chat responses.

use vstd::prelude::*;
use vstd::utf8::{decode_utf8, valid_utf8};

use crate::error::{AppError, ErrorModel};
use crate::http::{build_provider_client, ProviderClientSettings};
use crate::providers::{
    copy_opt, opt_view, ChatMessage, ChatRequest, ChatResponse, ChatRole,
    ChatStreamChunk, MessageModel, ModelInfo, ProviderHealth, ResponseModel, ToolCall,
    ToolCallModel, ToolDefinition, OLLAMA_PROVIDER_ID,
};
use crate::text::{
    concat, ends_with, has_suffix, owned, same_text, spec_utf8_error_text, trim, trimmed,
    utf8_decode,
};
use crate::urls::{join_url, parse_url, url_join_outcome, url_parse_outcome, ParsedUrl, UrlModel};

verus! {

/// Where the Ollama server listens unless configured otherwise.
pub const DEFAULT_OLLAMA_BASE_URL: &'static str = "http://localhost:11434";

/// Seconds allowed to connect to the server.
pub const OLLAMA_CONNECT_TIMEOUT_SECS: u64 = 5;

/// Seconds allowed for a whole request (streaming requests have no limit).
pub const OLLAMA_REQUEST_TIMEOUT_SECS: u64 = 120;

// ---------------------------------------------------------------------------
// The server
// ---------------------------------------------------------------------------

/// What the configured base URL of the server becomes: the parsed URL with a
/// trailing slash, or the message of the refusal.
pub open spec fn base_url_outcome(base_url: Seq<char>) -> Result<UrlModel, Seq<char>> {
    let t = trimmed(base_url);
    let normalized = if has_suffix(t, "/"@) {
        t
    } else {
        t + "/"@
    };
    if t.len() == 0 {
        Err("TAURUS_OLLAMA_BASE_URL cannot be empty."@)
    } else {
        match url_parse_outcome(normalized) {
            Err(e) => Err("TAURUS_OLLAMA_BASE_URL is not a valid URL ('"@ + t + "'): "@ + e),
            Ok(url) => if url.scheme == "http"@ || url.scheme == "https"@ {
                Ok(url)
            } else {
                Err("TAURUS_OLLAMA_BASE_URL must use http or https, found '"@ + url.scheme + "'."@)
            },
        }
    }
}

/// A configuration error with the given message.
pub open spec fn config_error(e: AppError, message: Seq<char>) -> bool {
    e.deep_view() == ErrorModel::Config(message)
}

/// A protocol error with the given message.
pub open spec fn protocol_error(e: AppError, message: Seq<char>) -> bool {
    e.deep_view() == ErrorModel::ProviderProtocol(message)
}

/// An unavailability error with the given message.
pub open spec fn unavailable_error(e: AppError, message: Seq<char>) -> bool {
    e.deep_view() == ErrorModel::ProviderUnavailable(message)
}

/// The base URL of the server: trimmed, ending with a slash, HTTP or HTTPS.
pub fn resolve_base_url(base_url: &str) -> (res: Result<ParsedUrl, AppError>)
    ensures
        match res {
            Ok(url) => base_url_outcome(base_url@) == Ok::<UrlModel, Seq<char>>(url.deep_view()),
            Err(e) => base_url_outcome(base_url@) matches Err(m) && config_error(e, m),
        },
{
    let trimmed_url = trim(base_url);
    if trimmed_url.as_str().is_empty() {
        return Err(AppError::Config(owned("TAURUS_OLLAMA_BASE_URL cannot be empty.")));
    }
    let normalized = if ends_with(trimmed_url.as_str(), "/") {
        owned(trimmed_url.as_str())
    } else {
        concat(trimmed_url.as_str(), "/")
    };
    let parsed = match parse_url(normalized.as_str()) {
        Ok(parsed) => parsed,
        Err(error) => {
            let mut message = concat("TAURUS_OLLAMA_BASE_URL is not a valid URL ('", trimmed_url.as_str());
            message.append("'): ");
            message.append(error.as_str());
            return Err(AppError::Config(message));
        },
    };
    if same_text(parsed.scheme.as_str(), "http") || same_text(parsed.scheme.as_str(), "https") {
        Ok(parsed)
    } else {
        let mut message = concat("TAURUS_OLLAMA_BASE_URL must use http or https, found '", parsed.scheme.as_str());
        message.append("'.");
        Err(AppError::Config(message))
    }
}

/// The Ollama provider: the client that talks to the server, the settings
/// that client was built with, and where the server is.
pub struct OllamaProvider {
    pub client: reqwest::Client,
    pub client_settings: ProviderClientSettings,
    pub base_url: ParsedUrl,
}

/// What an endpoint of the server resolves to: the URL, or the message of the
/// failure.
pub open spec fn endpoint_outcome(base_url: Seq<char>, path: Seq<char>) -> Result<UrlModel, Seq<char>> {
    match url_join_outcome(base_url, path) {
        Ok(url) => Ok(url),
        Err(e) => Err("Could not construct provider endpoint URL: "@ + e),
    }
}

/// Which request to the server failed.
#[derive(Debug, Clone, Copy, PartialEq, Eq, Structural)]
pub enum OllamaOperation {
    HealthCheck,
    ListModels,
    Chat,
    StreamChat,
}

/// The message of a request whose status is not a success.
pub open spec fn status_failure_message(operation: OllamaOperation, status: Seq<char>) -> Seq<char> {
    match operation {
        OllamaOperation::HealthCheck => "Ollama health check failed with HTTP status "@ + status + "."@,
        OllamaOperation::ListModels => "Ollama model listing failed with HTTP status "@ + status + "."@,
        OllamaOperation::Chat => "Ollama chat request failed with HTTP status "@ + status
            + ". Ensure the selected model supports tool calling."@,
        OllamaOperation::StreamChat => "Ollama streaming chat request failed with HTTP status "@ + status
            + "."@,
    }
}

/// The settings of the provider's client: it gives up connecting after
/// `OLLAMA_CONNECT_TIMEOUT_SECS` seconds.
pub fn provider_client_settings() -> (res: ProviderClientSettings)
    ensures
        res.connect_timeout_secs == OLLAMA_CONNECT_TIMEOUT_SECS,
{
    ProviderClientSettings { connect_timeout_secs: OLLAMA_CONNECT_TIMEOUT_SECS }
}

impl OllamaProvider {
    /// The provider for the server at `base_url`, or at
    /// `DEFAULT_OLLAMA_BASE_URL` when none is configured. Its client is built
    /// from `provider_client_settings` once the base URL has resolved; a
    /// failure to build it is reported as an HTTP client error.
    pub fn new(base_url: Option<&str>) -> (res: Result<OllamaProvider, AppError>)
        ensures
            ({
                let configured = match base_url {
                    Some(u) => u@,
                    None => DEFAULT_OLLAMA_BASE_URL@,
                };
                match res {
                    Ok(p) => base_url_outcome(configured) == Ok::<UrlModel, Seq<char>>(
                        p.base_url.deep_view(),
                    ) && p.client_settings.connect_timeout_secs == OLLAMA_CONNECT_TIMEOUT_SECS,
                    Err(e) => (base_url_outcome(configured) matches Err(m) && config_error(e, m)) || (
                    base_url_outcome(configured) is Ok && e is HttpClient),
                }
            }),
    {
        let configured = match base_url {
            Some(u) => u,
            None => DEFAULT_OLLAMA_BASE_URL,
        };
        let resolved_url = match resolve_base_url(configured) {
            Ok(url) => url,
            Err(e) => {
                return Err(e);
            },
        };
        let client_settings = provider_client_settings();
        match build_provider_client(&client_settings) {
            Ok(client) => Ok(OllamaProvider { client, client_settings, base_url: resolved_url }),
            Err(kind) => Err(AppError::HttpClient(kind)),
        }
    }

    /// The URL of an endpoint of the server (a path relative to the base URL).
    pub fn endpoint(&self, path: &str) -> (res: Result<ParsedUrl, AppError>)
        ensures
            match res {
                Ok(url) => endpoint_outcome(self.base_url.href@, path@) == Ok::<UrlModel, Seq<char>>(
                    url.deep_view(),
                ),
                Err(e) => endpoint_outcome(self.base_url.href@, path@) matches Err(m) && config_error(
                    e,
                    m,
                ),
            },
    {
        match join_url(&self.base_url, path) {
            Ok(url) => Ok(url),
            Err(error) => Err(
                AppError::Config(concat("Could not construct provider endpoint URL: ", error.as_str())),
            ),
        }
    }

    /// The failure of a request that did not reach the server.
    pub fn unreachable(&self, detail: &str) -> (res: AppError)
        ensures
            unavailable_error(
                res,
                "Could not reach Ollama at '"@ + self.base_url.href@ + "': "@ + detail@,
            ),
    {
        let mut message = concat("Could not reach Ollama at '", self.base_url.href.as_str());
        message.append("': ");
        message.append(detail);
        AppError::ProviderUnavailable(message)
    }

    /// The health of a server that answered the health check with success.
    pub fn reachable_health(&self) -> (res: ProviderHealth)
        ensures
            res.provider@ == OLLAMA_PROVIDER_ID@,
            res.healthy,
            res.base_url@ == self.base_url.href@,
            opt_view(res.message) == Some("Ollama is reachable."@),
    {
        ProviderHealth {
            provider: owned(OLLAMA_PROVIDER_ID),
            healthy: true,
            base_url: owned(self.base_url.href.as_str()),
            message: Some(owned("Ollama is reachable.")),
        }
    }
}

/// The failure of a request whose status is not a success; `status` is the
/// status as displayed (code and reason).
pub fn status_failure(operation: OllamaOperation, status: &str) -> (res: AppError)
    ensures
        unavailable_error(res, status_failure_message(operation, status@)),
{
    let mut message = match operation {
        OllamaOperation::HealthCheck => owned("Ollama health check failed with HTTP status "),
        OllamaOperation::ListModels => owned("Ollama model listing failed with HTTP status "),
        OllamaOperation::Chat => owned("Ollama chat request failed with HTTP status "),
        OllamaOperation::StreamChat => owned("Ollama streaming chat request failed with HTTP status "),
    };
    message.append(status);
    match operation {
        OllamaOperation::Chat => message.append(". Ensure the selected model supports tool calling."),
        _ => message.append("."),
    }
    AppError::ProviderUnavailable(message)
}

/// Refuses a reply of the server whose status code is not a success
/// (`200..=299`); `status` is the status as displayed (code and reason).
pub fn ensure_ollama_success(operation: OllamaOperation, status_code: u16, status: &str) -> (res:
    Result<(), AppError>)
    ensures
        res is Ok <==> 200 <= status_code <= 299,
        res matches Err(e) ==> unavailable_error(e, status_failure_message(operation, status@)),
{
    if 200 <= status_code && status_code <= 299 {
        Ok(())
    } else {
        Err(status_failure(operation, status))
    }
}

/// What could not be read from the server.
#[derive(Debug, Clone, Copy, PartialEq, Eq, Structural)]
pub enum OllamaPayload {
    ChatResponse,
    ModelList,
    StreamChunk,
}

/// The failure to read a reply of the server, with the reader's error.
pub fn payload_failure(payload: OllamaPayload, detail: &str) -> (res: AppError)
    ensures
        payload == OllamaPayload::ChatResponse ==> protocol_error(
            res,
            "Could not parse Ollama chat response: "@ + detail@,
        ),
        payload == OllamaPayload::ModelList ==> protocol_error(
            res,
            "Could not parse Ollama model response: "@ + detail@,
        ),
        payload == OllamaPayload::StreamChunk ==> protocol_error(
            res,
            "Could not parse stream chunk: "@ + detail@,
        ),
{
    let prefix = match payload {
        OllamaPayload::ChatResponse => "Could not parse Ollama chat response: ",
        OllamaPayload::ModelList => "Could not parse Ollama model response: ",
        OllamaPayload::StreamChunk => "Could not parse stream chunk: ",
    };
    AppError::ProviderProtocol(concat(prefix, detail))
}

/// The failure of a stream that broke off, with the transport's error.
pub fn stream_failure(detail: &str) -> (res: AppError)
    ensures
        unavailable_error(res, "Streaming response from Ollama failed: "@ + detail@),
{
    AppError::ProviderUnavailable(concat("Streaming response from Ollama failed: ", detail))
}

// ---------------------------------------------------------------------------
// Roles and model listings
// ---------------------------------------------------------------------------

/// The role that a role name denotes.
pub open spec fn role_named(name: Seq<char>) -> Option<ChatRole> {
    if name == "system"@ {
        Some(ChatRole::System)
    } else if name == "user"@ {
        Some(ChatRole::User)
    } else if name == "assistant"@ {
        Some(ChatRole::Assistant)
    } else if name == "tool"@ {
        Some(ChatRole::Tool)
    } else {
        None
    }
}

/// The name of a role on the wire.
pub open spec fn role_name(role: ChatRole) -> Seq<char> {
    match role {
        ChatRole::System => "system"@,
        ChatRole::User => "user"@,
        ChatRole::Assistant => "assistant"@,
        ChatRole::Tool => "tool"@,
    }
}

/// Every role has a wire name of its own, the role's name in lower case, and
/// reading that name gives the role back; so no two roles share a name and a
/// reply's role survives the trip to the server and back.
pub proof fn law_role_names_round_trip(role: ChatRole, other: ChatRole)
    ensures
        role_named(role_name(role)) == Some(role),
        role_name(role) == role_name(other) ==> role == other,
        role_name(ChatRole::System) == "system"@,
        role_name(ChatRole::User) == "user"@,
        role_name(ChatRole::Assistant) == "assistant"@,
        role_name(ChatRole::Tool) == "tool"@,
{
    reveal_strlit("system");
    reveal_strlit("user");
    reveal_strlit("assistant");
    reveal_strlit("tool");
    assert("system"@.len() == 6 && "user"@.len() == 4 && "assistant"@.len() == 9 && "tool"@.len() == 4);
    assert("user"@[0] != "tool"@[0]);
    assert("system"@ != "user"@ && "system"@ != "assistant"@ && "system"@ != "tool"@);
    assert("user"@ != "assistant"@ && "user"@ != "tool"@ && "assistant"@ != "tool"@);
}

/// The role that the server names, or the refusal of an unknown one.
pub fn parse_chat_role(role: &str) -> (res: Result<ChatRole, AppError>)
    ensures
        match res {
            Ok(r) => role_named(role@) == Some(r),
            Err(e) => role_named(role@) is None && protocol_error(
                e,
                "Unsupported role returned by provider: '"@ + role@ + "'."@,
            ),
        },
{
    if same_text(role, "system") {
        Ok(ChatRole::System)
    } else if same_text(role, "user") {
        Ok(ChatRole::User)
    } else if same_text(role, "assistant") {
        Ok(ChatRole::Assistant)
    } else if same_text(role, "tool") {
        Ok(ChatRole::Tool)
    } else {
        let mut message = concat("Unsupported role returned by provider: '", role);
        message.append("'.");
        Err(AppError::ProviderProtocol(message))
    }
}

/// The name of a role on the wire.
pub fn chat_role_name(role: ChatRole) -> (res: &'static str)
    ensures
        res@ == role_name(role),
{
    match role {
        ChatRole::System => "system",
        ChatRole::User => "user",
        ChatRole::Assistant => "assistant",
        ChatRole::Tool => "tool",
    }
}

/// One model that the server lists.
#[derive(Debug)]
pub struct OllamaModel {
    pub name: String,
    pub model: Option<String>,
    pub modified_at: Option<String>,
    pub size: Option<u64>,
}

/// The model listing of the server.
#[derive(Debug)]
pub struct OllamaTagsResponse {
    pub models: Vec<OllamaModel>,
}

/// The model information that a listed model gives: its identifier is its
/// `model` field when present, else its name.
pub open spec fn model_info_of(model: OllamaModel, info: ModelInfo) -> bool {
    &&& info.provider@ == OLLAMA_PROVIDER_ID@
    &&& info.id@ == match model.model {
        Some(id) => id@,
        None => model.name@,
    }
    &&& info.display_name@ == model.name@
    &&& info.size_bytes == model.size
    &&& opt_view(info.modified_at) == opt_view(model.modified_at)
}

/// The models of a listing, in order.
pub fn map_models(payload: OllamaTagsResponse) -> (res: Vec<ModelInfo>)
    ensures
        res@.len() == payload.models@.len(),
        forall|i: int| 0 <= i < res@.len() ==> model_info_of(payload.models@[i], #[trigger] res@[i]),
{
    let models = payload.models;
    let n = models.len();
    let mut out: Vec<ModelInfo> = Vec::new();
    for i in 0..n
        invariant
            n == models@.len(),
            out@.len() == i,
            forall|j: int| 0 <= j < i ==> model_info_of(models@[j], #[trigger] out@[j]),
    {
        let model = &models[i];
        let id = match &model.model {
            Some(id) => id.clone(),
            None => model.name.clone(),
        };
        out.push(
            ModelInfo {
                provider: owned(OLLAMA_PROVIDER_ID),
                id,
                display_name: model.name.clone(),
                size_bytes: model.size,
                modified_at: copy_opt(&model.modified_at),
            },
        );
    }
    out
}

// ---------------------------------------------------------------------------
// Chat replies
// ---------------------------------------------------------------------------

/// The message of a chat reply, its role as the server names it.
#[derive(Debug)]
pub struct OllamaChatMessageResponse {
    pub role: String,
    pub content: String,
    pub tool_calls: Vec<ToolCall>,
    pub tool_name: Option<String>,
}

/// A chat reply of the server, or one line of a streamed reply.
#[derive(Debug)]
pub struct OllamaChatResponse {
    pub model: String,
    pub created_at: Option<String>,
    pub message: OllamaChatMessageResponse,
    pub done: bool,
    pub done_reason: Option<String>,
}

/// The mathematical content of a chat reply.
pub struct ReplyModel {
    pub model: Seq<char>,
    pub created_at: Option<Seq<char>>,
    pub role: Seq<char>,
    pub content: Seq<char>,
    pub tool_calls: Seq<ToolCallModel>,
    pub tool_name: Option<Seq<char>>,
    pub done: bool,
    pub done_reason: Option<Seq<char>>,
}

impl DeepView for OllamaChatResponse {
    type V = ReplyModel;

    open spec fn deep_view(&self) -> ReplyModel {
        ReplyModel {
            model: self.model@,
            created_at: opt_view(self.created_at),
            role: self.message.role@,
            content: self.message.content@,
            tool_calls: self.message.tool_calls.deep_view(),
            tool_name: opt_view(self.message.tool_name),
            done: self.done,
            done_reason: opt_view(self.done_reason),
        }
    }
}

/// The chat response that a reply gives, with the given message text; or the
/// message of the refusal when the reply's role is unknown.
pub open spec fn reply_response(reply: ReplyModel, content: Seq<char>) -> Result<ResponseModel, Seq<char>> {
    match role_named(reply.role) {
        None => Err("Unsupported role returned by provider: '"@ + reply.role + "'."@),
        Some(role) => Ok(
            ResponseModel {
                provider: OLLAMA_PROVIDER_ID@,
                model: reply.model,
                message: MessageModel {
                    role,
                    content,
                    tool_calls: reply.tool_calls,
                    tool_name: reply.tool_name,
                },
                done: reply.done,
                done_reason: reply.done_reason,
                created_at: reply.created_at,
            },
        ),
    }
}

/// The content of a response outcome.
pub open spec fn response_outcome(res: Result<ChatResponse, AppError>) -> Result<ResponseModel, ErrorModel> {
    match res {
        Ok(r) => Ok(r.deep_view()),
        Err(e) => Err(e.deep_view()),
    }
}

/// A reply outcome as the provider reports it.
pub open spec fn as_protocol_outcome(outcome: Result<ResponseModel, Seq<char>>) -> Result<ResponseModel, ErrorModel> {
    match outcome {
        Ok(r) => Ok(r),
        Err(m) => Err(ErrorModel::ProviderProtocol(m)),
    }
}

/// The chat response of a reply.
pub fn map_ollama_response(payload: OllamaChatResponse) -> (res: Result<ChatResponse, AppError>)
    ensures
        response_outcome(res) == as_protocol_outcome(
            reply_response(payload.deep_view(), payload.message.content@),
        ),
{
    let role = match parse_chat_role(payload.message.role.as_str()) {
        Ok(role) => role,
        Err(e) => {
            return Err(e);
        },
    };
    Ok(
        ChatResponse {
            provider: owned(OLLAMA_PROVIDER_ID),
            model: payload.model,
            message: ChatMessage {
                role,
                content: payload.message.content,
                tool_calls: payload.message.tool_calls,
                tool_name: payload.message.tool_name,
            },
            done: payload.done,
            done_reason: payload.done_reason,
            created_at: payload.created_at,
        },
    )
}

// ---------------------------------------------------------------------------
// Chat requests
// ---------------------------------------------------------------------------

/// A message as the server receives it: its role by name.
#[derive(Debug)]
pub struct OllamaChatMessage {
    pub role: String,
    pub content: String,
    pub tool_calls: Vec<ToolCall>,
    pub tool_name: Option<String>,
}

/// The sampling options of a request; the temperature is an `f32`, by its bits.
#[derive(Debug)]
pub struct OllamaChatOptions {
    pub temperature: u32,
}

/// A chat request as the server receives it.
#[derive(Debug)]
pub struct OllamaChatRequest {
    pub model: String,
    pub messages: Vec<OllamaChatMessage>,
    pub stream: bool,
    pub tools: Vec<ToolDefinition>,
    pub options: Option<OllamaChatOptions>,
}

/// The wire message of a chat message: the same message, its role by name.
pub open spec fn wire_message_of(message: ChatMessage, wire: OllamaChatMessage) -> bool {
    &&& wire.role@ == role_name(message.role)
    &&& wire.content@ == message.content@
    &&& wire.tool_calls.deep_view() == message.tool_calls.deep_view()
    &&& opt_view(wire.tool_name) == opt_view(message.tool_name)
}

impl OllamaChatMessage {
    /// The wire message of a chat message.
    pub fn from_message(value: ChatMessage) -> (res: OllamaChatMessage)
        ensures
            wire_message_of(value, res),
    {
        OllamaChatMessage {
            role: owned(chat_role_name(value.role)),
            content: value.content,
            tool_calls: value.tool_calls,
            tool_name: value.tool_name,
        }
    }
}

impl OllamaProvider {
    /// The body of a chat request: the model, every message in order, whether
    /// to stream, the tools offered, and the temperature when one is set.
    pub fn build_chat_request_body(request: ChatRequest, stream: bool, tools: Vec<ToolDefinition>) -> (res:
        OllamaChatRequest)
        ensures
            res.model@ == request.model@,
            res.messages@.len() == request.messages@.len(),
            forall|i: int|
                0 <= i < res.messages@.len() ==> wire_message_of(
                    request.messages@[i],
                    #[trigger] res.messages@[i],
                ),
            res.stream == stream,
            res.tools@ == tools@,
            match request.temperature {
                Some(t) => res.options matches Some(o) && o.temperature == t,
                None => res.options is None,
            },
    {
        let n = request.messages.len();
        let mut messages: Vec<OllamaChatMessage> = Vec::new();
        for i in 0..n
            invariant
                n == request.messages@.len(),
                messages@.len() == i,
                forall|j: int| 0 <= j < i ==> wire_message_of(request.messages@[j], #[trigger] messages@[j]),
        {
            let message = request.messages[i].copy();
            messages.push(OllamaChatMessage::from_message(message));
        }
        OllamaChatRequest {
            model: request.model,
            messages,
            stream,
            tools,
            options: match request.temperature {
                Some(temperature) => Some(OllamaChatOptions { temperature }),
                None => None,
            },
        }
    }
}

// ---------------------------------------------------------------------------
// Streamed replies
// ---------------------------------------------------------------------------

/// The line feed byte that ends each line of a streamed reply.
pub const LINE_FEED: u8 = 10;

/// `k` is the position of the first line feed in `bytes`.
pub open spec fn is_first_line_feed(bytes: Seq<u8>, k: int) -> bool {
    &&& 0 <= k < bytes.len()
    &&& bytes[k] == LINE_FEED
    &&& forall|j: int| 0 <= j < k ==> bytes[j] != LINE_FEED
}

/// `bytes` hold a line feed.
pub open spec fn has_line_feed(bytes: Seq<u8>) -> bool {
    exists|k: int| 0 <= k < bytes.len() && bytes[k] == LINE_FEED
}

/// The position of the first line feed in `bytes`, when there is one.
pub open spec fn first_line_feed(bytes: Seq<u8>) -> int {
    choose|k: int| is_first_line_feed(bytes, k)
}

/// The first complete line of `bytes`, its line feed included.
pub open spec fn first_line(bytes: Seq<u8>) -> Seq<u8> {
    bytes.take(first_line_feed(bytes) + 1)
}

/// The bytes after the first complete line.
pub open spec fn after_first_line(bytes: Seq<u8>) -> Seq<u8> {
    bytes.skip(first_line_feed(bytes) + 1)
}

/// What one line of a streamed reply gives: its trimmed text, nothing for a
/// blank line, or the message of the failure when it is not UTF-8.
pub open spec fn line_outcome(line: Seq<u8>) -> Result<Option<Seq<char>>, Seq<char>> {
    if !valid_utf8(line) {
        Err("Could not decode Ollama stream line as UTF-8: "@ + spec_utf8_error_text(line))
    } else if trimmed(decode_utf8(line)).len() == 0 {
        Ok(None)
    } else {
        Ok(Some(trimmed(decode_utf8(line))))
    }
}

/// A line result that matches a line outcome.
pub open spec fn line_result_is(res: Result<Option<String>, AppError>, outcome: Result<Option<Seq<char>>, Seq<char>>) -> bool {
    match (res, outcome) {
        (Ok(Some(text)), Ok(Some(expected))) => text@ == expected,
        (Ok(None), Ok(None)) => true,
        (Err(e), Err(m)) => protocol_error(e, m),
        _ => false,
    }
}

/// The first line feed is unique.
proof fn lemma_first_line_feed(bytes: Seq<u8>, k: int)
    requires
        is_first_line_feed(bytes, k),
    ensures
        first_line_feed(bytes) == k,
        has_line_feed(bytes),
{
    let c = first_line_feed(bytes);
    assert(is_first_line_feed(bytes, c));
    if c < k {
        assert(bytes[c] != LINE_FEED);
    } else if c > k {
        assert(bytes[k] != LINE_FEED);
    }
}

/// Reads the text of one line of a streamed reply.
fn decode_line(line: &[u8]) -> (res: Result<Option<String>, AppError>)
    ensures
        line_result_is(res, line_outcome(line@)),
{
    match utf8_decode(line) {
        Ok(text) => {
            let t = trim(text.as_str());
            if t.as_str().is_empty() {
                Ok(None)
            } else {
                Ok(Some(t))
            }
        },
        Err(error) => Err(
            AppError::ProviderProtocol(concat("Could not decode Ollama stream line as UTF-8: ", error.as_str())),
        ),
    }
}

/// Assembles a streamed reply: frames the received bytes into lines, collects
/// the text of each reply line, and keeps the last reply line for the final
/// response. The caller reads each line as a reply and records it.
pub struct OllamaStreamAccumulator {
    buffer: Vec<u8>,
    content: String,
    last_chunk: Option<OllamaChatResponse>,
    replies: Ghost<Seq<ReplyModel>>,
}

/// The text of the replies, in order.
pub open spec fn concatenated(replies: Seq<ReplyModel>) -> Seq<char>
    decreases replies.len(),
{
    if replies.len() == 0 {
        Seq::empty()
    } else {
        concatenated(replies.drop_last()) + replies.last().content
    }
}

impl OllamaStreamAccumulator {
    #[verifier::type_invariant]
    spec fn consistent(self) -> bool {
        &&& self.content@ == concatenated(self.replies@)
        &&& (self.last_chunk is Some <==> self.replies@.len() > 0)
        &&& (self.last_chunk matches Some(chunk) ==> chunk.deep_view() == self.replies@.last())
    }

    /// The reply lines recorded so far, in order.
    pub closed spec fn recorded(self) -> Seq<ReplyModel> {
        self.replies@
    }

    /// The bytes received and not yet framed into a line.
    pub closed spec fn pending(self) -> Seq<u8> {
        self.buffer@
    }

    /// The text of the reply lines recorded so far, in order.
    pub closed spec fn content(self) -> Seq<char> {
        self.content@
    }

    /// The last reply line recorded.
    pub closed spec fn last_reply(self) -> Option<ReplyModel> {
        match self.last_chunk {
            Some(chunk) => Some(chunk.deep_view()),
            None => None,
        }
    }

    /// An accumulator that has received nothing.
    pub fn new() -> (res: OllamaStreamAccumulator)
        ensures
            res.pending() == Seq::<u8>::empty(),
            res.content() == Seq::<char>::empty(),
            res.last_reply() is None,
            res.recorded() == Seq::<ReplyModel>::empty(),
    {
        OllamaStreamAccumulator {
            buffer: Vec::new(),
            content: String::new(),
            last_chunk: None,
            replies: Ghost(Seq::empty()),
        }
    }

    /// Takes in the next bytes of the stream.
    pub fn push(&mut self, bytes: &[u8])
        ensures
            final(self).pending() == old(self).pending() + bytes@,
            final(self).content() == old(self).content(),
            final(self).last_reply() == old(self).last_reply(),
            final(self).recorded() == old(self).recorded(),
    {
        proof {
            use_type_invariant(&*self);
        }
        let mut buffer: Vec<u8> = Vec::new();
        std::mem::swap(&mut buffer, &mut self.buffer);
        buffer.extend_from_slice(bytes);
        assert(buffer@ =~= old(self).pending() + bytes@);
        self.buffer = buffer;
    }

    /// Frames the next complete line, when the bytes received hold one, and
    /// reads its text (`None` for a blank line).
    pub fn next_line(&mut self) -> (res: Option<Result<Option<String>, AppError>>)
        ensures
            res is None <==> !has_line_feed(old(self).pending()),
            res is None ==> final(self).pending() == old(self).pending(),
            res matches Some(r) ==> final(self).pending() == after_first_line(old(self).pending())
                && old(self).pending() == first_line(old(self).pending()) + final(self).pending()
                && line_result_is(r, line_outcome(first_line(old(self).pending()))),
            final(self).content() == old(self).content(),
            final(self).last_reply() == old(self).last_reply(),
            final(self).recorded() == old(self).recorded(),
    {
        proof {
            use_type_invariant(&*self);
        }
        let n = self.buffer.len();
        let mut k: usize = 0;
        while k < n && self.buffer[k] != LINE_FEED
            invariant
                n == self.buffer@.len(),
                k <= n,
                forall|j: int| 0 <= j < k ==> self.buffer@[j] != LINE_FEED,
            decreases n - k,
        {
            k = k + 1;
        }
        if k == n {
            return None;
        }
        proof {
            lemma_first_line_feed(self.buffer@, k as int);
        }
        let mut line: Vec<u8> = Vec::new();
        std::mem::swap(&mut line, &mut self.buffer);
        let rest = line.split_off(k + 1);
        self.buffer = rest;
        assert(old(self).pending() =~= line@ + self.buffer@);
        Some(decode_line(line.as_slice()))
    }

    /// Frames what remains of the stream, when anything does, as its last
    /// line and reads its text.
    pub fn take_trailing(&mut self) -> (res: Option<Result<Option<String>, AppError>>)
        ensures
            res is None <==> old(self).pending().len() == 0,
            final(self).pending() == Seq::<u8>::empty(),
            res matches Some(r) ==> line_result_is(r, line_outcome(old(self).pending())),
            final(self).content() == old(self).content(),
            final(self).last_reply() == old(self).last_reply(),
            final(self).recorded() == old(self).recorded(),
    {
        proof {
            use_type_invariant(&*self);
        }
        if self.buffer.len() == 0 {
            return None;
        }
        let mut trailing: Vec<u8> = Vec::new();
        std::mem::swap(&mut trailing, &mut self.buffer);
        Some(decode_line(trailing.as_slice()))
    }

    /// Records a reply line: appends its text and keeps it as the last one.
    /// Gives the chunk to deliver to the front end.
    pub fn record(&mut self, chunk: OllamaChatResponse) -> (res: ChatStreamChunk)
        ensures
            final(self).content() == old(self).content() + chunk.message.content@,
            final(self).last_reply() == Some(chunk.deep_view()),
            final(self).pending() == old(self).pending(),
            final(self).recorded() == old(self).recorded().push(chunk.deep_view()),
            res.provider@ == OLLAMA_PROVIDER_ID@,
            res.model@ == chunk.model@,
            res.delta@ == chunk.message.content@,
            res.done == chunk.done,
            opt_view(res.done_reason) == opt_view(chunk.done_reason),
            opt_view(res.created_at) == opt_view(chunk.created_at),
    {
        proof {
            use_type_invariant(&*self);
        }
        let mut taken = OllamaStreamAccumulator::new();
        std::mem::swap(self, &mut taken);
        proof {
            use_type_invariant(&taken);
        }
        let OllamaStreamAccumulator { buffer, mut content, last_chunk: _, replies } = taken;
        let delta = chunk.message.content.clone();
        content.append(delta.as_str());
        let ghost recorded = replies@.push(chunk.deep_view());
        assert(recorded.drop_last() =~= replies@);
        let delivered = ChatStreamChunk {
            provider: owned(OLLAMA_PROVIDER_ID),
            model: chunk.model.clone(),
            delta,
            done: chunk.done,
            done_reason: copy_opt(&chunk.done_reason),
            created_at: copy_opt(&chunk.created_at),
        };
        *self = OllamaStreamAccumulator {
            buffer,
            content,
            last_chunk: Some(chunk),
            replies: Ghost(recorded),
        };
        delivered
    }

    /// The response of the whole stream: the last reply line with the text of
    /// all reply lines; or the refusal of a stream without any.
    pub fn finish(self) -> (res: Result<ChatResponse, AppError>)
        ensures
            match self.last_reply() {
                None => res matches Err(e) && protocol_error(
                    e,
                    "Ollama returned an empty stream response."@,
                ),
                Some(last) => response_outcome(res) == as_protocol_outcome(
                    reply_response(last, self.content()),
                ),
            },
            self.recorded().len() == 0 ==> (res matches Err(e) && protocol_error(
                e,
                "Ollama returned an empty stream response."@,
            )),
            self.recorded().len() > 0 ==> response_outcome(res) == as_protocol_outcome(
                reply_response(self.recorded().last(), concatenated(self.recorded())),
            ),
    {
        proof {
            use_type_invariant(&self);
        }
        let final_chunk = match self.last_chunk {
            Some(chunk) => chunk,
            None => {
                return Err(AppError::ProviderProtocol(owned("Ollama returned an empty stream response.")));
            },
        };
        let role = match parse_chat_role(final_chunk.message.role.as_str()) {
            Ok(role) => role,
            Err(e) => {
                return Err(e);
            },
        };
        Ok(
            ChatResponse {
                provider: owned(OLLAMA_PROVIDER_ID),
                model: final_chunk.model,
                message: ChatMessage {
                    role,
                    content: self.content,
                    tool_calls: final_chunk.message.tool_calls,
                    tool_name: final_chunk.message.tool_name,
                },
                done: final_chunk.done,
                done_reason: final_chunk.done_reason,
                created_at: final_chunk.created_at,
            },
        )
    }
}

/// The first line of bytes that hold a line feed is not empty, so what
/// follows it is shorter.
pub proof fn lemma_first_line_shrinks(bytes: Seq<u8>)
    requires
        has_line_feed(bytes),
    ensures
        is_first_line_feed(bytes, first_line_feed(bytes)),
        after_first_line(bytes).len() < bytes.len(),
{
    let k = choose|k: int| 0 <= k < bytes.len() && bytes[k] == LINE_FEED;
    lemma_earliest_line_feed(bytes, k);
}

/// Some line feed is the first one.
pub proof fn lemma_earliest_line_feed(bytes: Seq<u8>, k: int)
    requires
        0 <= k < bytes.len(),
        bytes[k] == LINE_FEED,
    ensures
        is_first_line_feed(bytes, first_line_feed(bytes)),
    decreases k,
{
    if forall|j: int| 0 <= j < k ==> bytes[j] != LINE_FEED {
        assert(is_first_line_feed(bytes, k));
    } else {
        let j = choose|j: int| 0 <= j < k && bytes[j] == LINE_FEED;
        lemma_earliest_line_feed(bytes, j);
    }
}

/// The complete lines of a stream's bytes, in order, each with its line feed.
pub open spec fn framed_lines(bytes: Seq<u8>) -> Seq<Seq<u8>>
    decreases bytes.len(),
{
    if has_line_feed(bytes) {
        proof {
            lemma_first_line_shrinks(bytes);
        }
        seq![first_line(bytes)] + framed_lines(after_first_line(bytes))
    } else {
        Seq::empty()
    }
}

/// What follows the last complete line of a stream's bytes.
pub open spec fn unframed_rest(bytes: Seq<u8>) -> Seq<u8>
    decreases bytes.len(),
{
    if has_line_feed(bytes) {
        proof {
            lemma_first_line_shrinks(bytes);
        }
        unframed_rest(after_first_line(bytes))
    } else {
        bytes
    }
}

/// How a stream is cut into chunks does not change its lines: framing the
/// bytes `a` and then, after what `a` leaves unframed, the bytes `b`, gives
/// the lines, and the rest, of `a + b`.
pub proof fn law_framing_ignores_chunk_boundaries(a: Seq<u8>, b: Seq<u8>)
    ensures
        framed_lines(a + b) == framed_lines(a) + framed_lines(unframed_rest(a) + b),
        unframed_rest(a + b) == unframed_rest(unframed_rest(a) + b),
    decreases a.len(),
{
    if has_line_feed(a) {
        lemma_first_line_shrinks(a);
        let k = first_line_feed(a);
        assert((a + b)[k] == LINE_FEED);
        assert forall|j: int| 0 <= j < k implies (a + b)[j] != LINE_FEED by {
            assert((a + b)[j] == a[j]);
        }
        assert(is_first_line_feed(a + b, k));
        lemma_first_line_feed(a + b, k);
        assert(first_line(a + b) =~= first_line(a));
        assert(after_first_line(a + b) =~= after_first_line(a) + b);
        law_framing_ignores_chunk_boundaries(after_first_line(a), b);
        assert(framed_lines(a + b) =~= seq![first_line(a)] + framed_lines(after_first_line(a) + b));
        assert(framed_lines(a) =~= seq![first_line(a)] + framed_lines(after_first_line(a)));
        assert(framed_lines(a + b) =~= framed_lines(a) + framed_lines(unframed_rest(a) + b));
    } else {
        assert(framed_lines(a) =~= Seq::<Seq<u8>>::empty());
        assert(framed_lines(a) + framed_lines(unframed_rest(a) + b) =~= framed_lines(a + b));
    }
}

/// Taking the next line from the bytes received takes the first of their
/// framed lines and leaves the others.
pub proof fn law_next_line_takes_the_first_framed_line(pending: Seq<u8>)
    requires
        has_line_feed(pending),
    ensures
        framed_lines(pending) == seq![first_line(pending)] + framed_lines(after_first_line(pending)),
        unframed_rest(pending) == unframed_rest(after_first_line(pending)),
        pending == first_line(pending) + after_first_line(pending),
{
    lemma_first_line_shrinks(pending);
    assert(pending =~= first_line(pending) + after_first_line(pending));
}

/// The bytes of a stream received in chunks, in order.
pub open spec fn joined_chunks(chunks: Seq<Seq<u8>>) -> Seq<u8>
    decreases chunks.len(),
{
    if chunks.len() == 0 {
        Seq::empty()
    } else {
        joined_chunks(chunks.drop_last()) + chunks.last()
    }
}

/// What framing a stream chunk by chunk gives: after each chunk, every line
/// complete in what is pending is taken; the lines taken so far and what is
/// left pending.
pub open spec fn frame_chunks(chunks: Seq<Seq<u8>>) -> (Seq<Seq<u8>>, Seq<u8>)
    decreases chunks.len(),
{
    if chunks.len() == 0 {
        (Seq::empty(), Seq::empty())
    } else {
        let (lines, rest) = frame_chunks(chunks.drop_last());
        (lines + framed_lines(rest + chunks.last()), unframed_rest(rest + chunks.last()))
    }
}

/// However a stream is cut into chunks, framing it chunk by chunk takes the
/// lines of the whole stream, in order, and leaves what follows its last line
/// feed pending; so two cuttings of the same bytes frame the same lines.
pub proof fn law_stream_cuts_frame_alike(chunks: Seq<Seq<u8>>, other: Seq<Seq<u8>>)
    ensures
        frame_chunks(chunks) == (framed_lines(joined_chunks(chunks)), unframed_rest(joined_chunks(chunks))),
        joined_chunks(chunks) == joined_chunks(other) ==> frame_chunks(chunks) == frame_chunks(other),
{
    lemma_frame_chunks(chunks);
    lemma_frame_chunks(other);
}

/// Framing chunk by chunk frames the whole stream.
proof fn lemma_frame_chunks(chunks: Seq<Seq<u8>>)
    ensures
        frame_chunks(chunks) == (framed_lines(joined_chunks(chunks)), unframed_rest(joined_chunks(chunks))),
    decreases chunks.len(),
{
    if chunks.len() == 0 {
        assert(framed_lines(Seq::<u8>::empty()) =~= Seq::<Seq<u8>>::empty());
    } else {
        let earlier = chunks.drop_last();
        lemma_frame_chunks(earlier);
        law_framing_ignores_chunk_boundaries(joined_chunks(earlier), chunks.last());
    }
}

/// The text of a finished stream is the text of every reply line recorded,
/// in order: recording one more line appends its text.
pub proof fn law_stream_text_is_the_recorded_text(replies: Seq<ReplyModel>, reply: ReplyModel)
    ensures
        concatenated(replies.push(reply)) == concatenated(replies) + reply.content,
        concatenated(Seq::<ReplyModel>::empty()) == Seq::<char>::empty(),
{
    assert(replies.push(reply).drop_last() =~= replies);
}

} // verus!
