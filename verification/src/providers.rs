//! Provider-independent chat types: messages, tool calls and tool definitions,
//! requests and responses, health and model listings. The Ollama provider is
//! in `ollama`.

pub mod ollama;

use vstd::prelude::*;

use crate::text::{ascii_lower, ascii_lowercase, owned, trim, trimmed};

verus! {

/// The identifier of the Ollama provider.
pub const OLLAMA_PROVIDER_ID: &'static str = "ollama";

/// Who wrote a chat message.
#[derive(Debug, Clone, Copy, PartialEq, Eq, Structural)]
pub enum ChatRole {
    System,
    User,
    Assistant,
    Tool,
}

/// The function part of a tool call. `arguments` holds the arguments as a JSON
/// document (normally an object; some providers send a JSON string that itself
/// holds the object).
#[derive(Debug)]
pub struct ToolFunctionCall {
    pub index: Option<usize>,
    pub name: String,
    pub arguments: String,
}

/// A tool call requested by a model.
#[derive(Debug)]
pub struct ToolCall {
    pub tool_type: String,
    pub function: ToolFunctionCall,
}

/// The function part of a tool definition; `parameters` is a JSON schema document.
#[derive(Debug)]
pub struct ToolFunctionDefinition {
    pub name: String,
    pub description: String,
    pub parameters: String,
}

/// A tool offered to the model.
#[derive(Debug)]
pub struct ToolDefinition {
    pub tool_type: String,
    pub function: ToolFunctionDefinition,
}

/// One chat message.
#[derive(Debug)]
pub struct ChatMessage {
    pub role: ChatRole,
    pub content: String,
    pub tool_calls: Vec<ToolCall>,
    pub tool_name: Option<String>,
}

/// A chat request. `temperature` holds the IEEE-754 bit pattern of the `f32`
/// sampling temperature.
#[derive(Debug)]
pub struct ChatRequest {
    pub provider: Option<String>,
    pub model: String,
    pub messages: Vec<ChatMessage>,
    pub temperature: Option<u32>,
    pub stream: Option<bool>,
}

/// A complete chat response.
#[derive(Debug)]
pub struct ChatResponse {
    pub provider: String,
    pub model: String,
    pub message: ChatMessage,
    pub done: bool,
    pub done_reason: Option<String>,
    pub created_at: Option<String>,
}

/// One piece of a streamed chat response.
#[derive(Debug)]
pub struct ChatStreamChunk {
    pub provider: String,
    pub model: String,
    pub delta: String,
    pub done: bool,
    pub done_reason: Option<String>,
    pub created_at: Option<String>,
}

/// The outcome of a provider health check.
#[derive(Debug)]
pub struct ProviderHealth {
    pub provider: String,
    pub healthy: bool,
    pub base_url: String,
    pub message: Option<String>,
}

/// A model that a provider offers.
#[derive(Debug)]
pub struct ModelInfo {
    pub provider: String,
    pub id: String,
    pub display_name: String,
    pub size_bytes: Option<u64>,
    pub modified_at: Option<String>,
}

/// The mathematical content of a tool call.
pub struct ToolCallModel {
    pub tool_type: Seq<char>,
    pub index: Option<usize>,
    pub name: Seq<char>,
    pub arguments: Seq<char>,
}

/// The mathematical content of a chat message.
pub struct MessageModel {
    pub role: ChatRole,
    pub content: Seq<char>,
    pub tool_calls: Seq<ToolCallModel>,
    pub tool_name: Option<Seq<char>>,
}

impl DeepView for ToolCall {
    type V = ToolCallModel;

    open spec fn deep_view(&self) -> ToolCallModel {
        ToolCallModel {
            tool_type: self.tool_type@,
            index: self.function.index,
            name: self.function.name@,
            arguments: self.function.arguments@,
        }
    }
}

impl DeepView for ChatMessage {
    type V = MessageModel;

    open spec fn deep_view(&self) -> MessageModel {
        MessageModel {
            role: self.role,
            content: self.content@,
            tool_calls: self.tool_calls.deep_view(),
            tool_name: match self.tool_name {
                Some(name) => Some(name@),
                None => None,
            },
        }
    }
}

/// The mathematical content of a chat response.
pub struct ResponseModel {
    pub provider: Seq<char>,
    pub model: Seq<char>,
    pub message: MessageModel,
    pub done: bool,
    pub done_reason: Option<Seq<char>>,
    pub created_at: Option<Seq<char>>,
}

impl DeepView for ChatResponse {
    type V = ResponseModel;

    open spec fn deep_view(&self) -> ResponseModel {
        ResponseModel {
            provider: self.provider@,
            model: self.model@,
            message: self.message.deep_view(),
            done: self.done,
            done_reason: opt_view(self.done_reason),
            created_at: opt_view(self.created_at),
        }
    }
}

/// The `Some` view of an optional string.
pub open spec fn opt_view(value: Option<String>) -> Option<Seq<char>> {
    match value {
        Some(s) => Some(s@),
        None => None,
    }
}

/// A message with no tool calls and no tool name.
pub open spec fn plain_message(role: ChatRole, content: Seq<char>) -> MessageModel {
    MessageModel { role, content, tool_calls: Seq::empty(), tool_name: None }
}

/// The tool type that a tool call carries when the provider gives none.
pub fn function_tool_type() -> (res: String)
    ensures
        res@ == "function"@,
{
    owned("function")
}

/// A copy of an optional string.
pub fn copy_opt(value: &Option<String>) -> (res: Option<String>)
    ensures
        opt_view(res) == opt_view(*value),
{
    match value {
        Some(s) => Some(s.clone()),
        None => None,
    }
}

impl ToolCall {
    /// A copy of this tool call.
    pub fn copy(&self) -> (res: ToolCall)
        ensures
            res.deep_view() == self.deep_view(),
    {
        ToolCall {
            tool_type: self.tool_type.clone(),
            function: ToolFunctionCall {
                index: self.function.index,
                name: self.function.name.clone(),
                arguments: self.function.arguments.clone(),
            },
        }
    }
}

/// A copy of a list of tool calls.
pub fn copy_calls(calls: &Vec<ToolCall>) -> (res: Vec<ToolCall>)
    ensures
        res.deep_view() == calls.deep_view(),
{
    let mut out: Vec<ToolCall> = Vec::new();
    let n = calls.len();
    for i in 0..n
        invariant
            n == calls@.len(),
            out@.len() == i,
            forall|j: int| 0 <= j < i ==> #[trigger] out@[j].deep_view() == calls@[j].deep_view(),
    {
        out.push(calls[i].copy());
    }
    assert(out.deep_view() =~= calls.deep_view());
    out
}

impl ChatMessage {
    /// A copy of this message.
    pub fn copy(&self) -> (res: ChatMessage)
        ensures
            res.deep_view() == self.deep_view(),
    {
        ChatMessage {
            role: self.role,
            content: self.content.clone(),
            tool_calls: copy_calls(&self.tool_calls),
            tool_name: copy_opt(&self.tool_name),
        }
    }

    /// A message without tool calls or tool name.
    pub fn plain(role: ChatRole, content: String) -> (res: ChatMessage)
        ensures
            res.deep_view() == plain_message(role, content@),
    {
        let res = ChatMessage { role, content, tool_calls: Vec::new(), tool_name: None };
        assert(res.tool_calls.deep_view() =~= Seq::<ToolCallModel>::empty());
        res
    }
}

/// A copy of a list of messages.
pub fn copy_messages(messages: &Vec<ChatMessage>) -> (res: Vec<ChatMessage>)
    ensures
        res.deep_view() == messages.deep_view(),
{
    let mut out: Vec<ChatMessage> = Vec::new();
    let n = messages.len();
    for i in 0..n
        invariant
            n == messages@.len(),
            out@.len() == i,
            forall|j: int| 0 <= j < i ==> #[trigger] out@[j].deep_view() == messages@[j].deep_view(),
    {
        out.push(messages[i].copy());
    }
    assert(out.deep_view() =~= messages.deep_view());
    out
}

impl ChatRequest {
    /// The same request with other messages and another stream flag.
    pub fn with_messages(&self, messages: Vec<ChatMessage>, stream: Option<bool>) -> (res:
        ChatRequest)
        ensures
            opt_view(res.provider) == opt_view(self.provider),
            res.model@ == self.model@,
            res.messages.deep_view() == messages.deep_view(),
            res.temperature == self.temperature,
            res.stream == stream,
    {
        ChatRequest {
            provider: copy_opt(&self.provider),
            model: self.model.clone(),
            messages,
            temperature: self.temperature,
            stream,
        }
    }
}

impl ChatResponse {
    /// A copy of this response.
    pub fn copy(&self) -> (res: ChatResponse)
        ensures
            res.deep_view() == self.deep_view(),
    {
        ChatResponse {
            provider: self.provider.clone(),
            model: self.model.clone(),
            message: self.message.copy(),
            done: self.done,
            done_reason: copy_opt(&self.done_reason),
            created_at: copy_opt(&self.created_at),
        }
    }

    /// The stream chunk that delivers this whole response at once.
    pub fn as_chunk(&self) -> (res: ChatStreamChunk)
        ensures
            res.provider@ == self.provider@,
            res.model@ == self.model@,
            res.delta@ == self.message.content@,
            res.done == self.done,
            opt_view(res.done_reason) == opt_view(self.done_reason),
            opt_view(res.created_at) == opt_view(self.created_at),
    {
        ChatStreamChunk {
            provider: self.provider.clone(),
            model: self.model.clone(),
            delta: self.message.content.clone(),
            done: self.done,
            done_reason: copy_opt(&self.done_reason),
            created_at: copy_opt(&self.created_at),
        }
    }
}

/// The provider identifier a request selects: the trimmed, lower-cased
/// identifier, or Ollama when none or only white space is given.
pub open spec fn selected_provider_id(requested: Option<Seq<char>>) -> Seq<char> {
    match requested {
        Some(id) if trimmed(id).len() > 0 => ascii_lower(trimmed(id)),
        _ => ascii_lower(OLLAMA_PROVIDER_ID@),
    }
}

/// The normalized provider identifier for a lookup (`AppState::provider`).
pub fn selected_provider(requested: Option<&str>) -> (res: String)
    ensures
        res@ == selected_provider_id(match requested {
            Some(s) => Some(s@),
            None => None,
        }),
{
    match requested {
        Some(id) => {
            let t = trim(id);
            if t.as_str().is_empty() {
                ascii_lowercase(OLLAMA_PROVIDER_ID)
            } else {
                ascii_lowercase(t.as_str())
            }
        },
        None => ascii_lowercase(OLLAMA_PROVIDER_ID),
    }
}

/// The provider a request selects, when it is configured: Ollama is the only
/// one; any other identifier is refused.
pub fn find_provider(requested: Option<&str>) -> (res: Result<String, crate::error::AppError>)
    ensures
        ({
            let id = selected_provider_id(
                match requested {
                    Some(s) => Some(s@),
                    None => None,
                },
            );
            &&& res is Ok <==> id == OLLAMA_PROVIDER_ID@
            &&& res matches Ok(found) ==> found@ == id
            &&& res matches Err(e) ==> e.deep_view() == crate::error::ErrorModel::ProviderNotFound(id)
        }),
{
    let id = selected_provider(requested);
    if crate::text::same_text(id.as_str(), OLLAMA_PROVIDER_ID) {
        Ok(id)
    } else {
        Err(crate::error::AppError::ProviderNotFound(id))
    }
}

} // verus!
