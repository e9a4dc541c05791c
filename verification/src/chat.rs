//! Checks on the chat requests that the front end sends.

use vstd::prelude::*;

use crate::error::AppError;
use crate::providers::{opt_view, plain_message, ChatMessage, ChatRequest, ChatRole, MessageModel};
use crate::text::{
    ascii_lower, ascii_lowercase, lemma_lower_trimmed, lemma_trimmed_idempotent, owned, trim, trimmed,
};

verus! {

/// Whether the `f32` with bit pattern `bits` lies in `0.0..=2.0`. Under IEEE-754
/// the non-negative floats are ordered as their bit patterns, `2.0` is
/// `0x4000_0000`, `-0.0` (`0x8000_0000`) equals `0.0`, and every other pattern
/// with the sign bit set is negative or a NaN, as is every pattern above
/// `0x7f80_0000`.
pub open spec fn temperature_in_range(bits: u32) -> bool {
    bits <= 0x4000_0000 || bits == 0x8000_0000
}

/// Why a message from the front end is refused, if it is.
pub open spec fn message_problem(m: MessageModel) -> Option<Seq<char>> {
    if m.role == ChatRole::Tool || m.tool_calls.len() > 0 || m.tool_name is Some {
        Some("Tool messages and tool calls are managed internally by the agent."@)
    } else if trimmed(m.content).len() == 0 {
        Some("Message content cannot be empty."@)
    } else {
        None
    }
}

/// The first refused message decides the error.
pub open spec fn first_problem_at(messages: Seq<MessageModel>, i: int) -> bool {
    &&& 0 <= i < messages.len()
    &&& message_problem(messages[i]) is Some
    &&& forall|j: int| 0 <= j < i ==> message_problem(#[trigger] messages[j]) is None
}

/// Why a request from the front end is refused, if it is: the model, then the
/// messages, then the temperature.
pub open spec fn request_problem(
    model: Seq<char>,
    messages: Seq<MessageModel>,
    temperature: Option<u32>,
) -> Option<Seq<char>> {
    if trimmed(model).len() == 0 {
        Some("A model is required for chat requests."@)
    } else if messages.len() == 0 {
        Some("At least one chat message is required."@)
    } else if exists|i: int| first_problem_at(messages, i) {
        message_problem(messages[choose|i: int| first_problem_at(messages, i)])
    } else if temperature matches Some(bits) && !temperature_in_range(bits) {
        Some("Temperature must be between 0.0 and 2.0."@)
    } else {
        None
    }
}

/// The provider named by a request, trimmed and lower-cased; none when it is
/// missing or blank.
pub open spec fn normalized_provider(provider: Option<Seq<char>>) -> Option<Seq<char>> {
    match provider {
        Some(p) if trimmed(p).len() > 0 => Some(ascii_lower(trimmed(p))),
        _ => None,
    }
}

/// Trims the model name; refuses an empty one.
pub fn validate_model(model: &str) -> (res: Result<String, AppError>)
    ensures
        trimmed(model@).len() == 0 ==> (res matches Err(AppError::Validation(m)) && m@
            == "A model is required for chat requests."@),
        trimmed(model@).len() > 0 ==> (res matches Ok(t) && t@ == trimmed(model@)),
{
    let t = trim(model);
    if t.as_str().is_empty() {
        return Err(AppError::Validation(owned("A model is required for chat requests.")));
    }
    Ok(t)
}

/// Trims, lower-cases and drops a blank provider name.
pub fn normalize_provider(provider: Option<String>) -> (res: Option<String>)
    ensures
        opt_view(res) == normalized_provider(opt_view(provider)),
{
    match provider {
        Some(value) => {
            let t = trim(value.as_str());
            let lowered = ascii_lowercase(t.as_str());
            if lowered.as_str().is_empty() {
                None
            } else {
                Some(lowered)
            }
        },
        None => None,
    }
}

/// Refuses a temperature outside `0.0..=2.0`; `temperature` holds the bit
/// pattern of the `f32`.
pub fn validate_temperature(temperature: Option<u32>) -> (res: Result<(), AppError>)
    ensures
        (temperature matches Some(bits) && !temperature_in_range(bits)) ==> (res matches Err(
            AppError::Validation(m),
        ) && m@ == "Temperature must be between 0.0 and 2.0."@),
        !(temperature matches Some(bits) && !temperature_in_range(bits)) ==> res is Ok,
{
    match temperature {
        Some(bits) => {
            if bits <= 0x4000_0000 || bits == 0x8000_0000 {
                Ok(())
            } else {
                Err(AppError::Validation(owned("Temperature must be between 0.0 and 2.0.")))
            }
        },
        None => Ok(()),
    }
}

/// Checks one message and gives it back with trimmed content.
pub fn validate_message(message: &ChatMessage) -> (res: Result<ChatMessage, AppError>)
    ensures
        match message_problem(message.deep_view()) {
            Some(p) => res matches Err(AppError::Validation(m)) && m@ == p,
            None => res matches Ok(checked) && checked.deep_view() == plain_message(
                message.role,
                trimmed(message.content@),
            ),
        },
{
    if message.role == ChatRole::Tool || message.tool_calls.len() > 0 || message.tool_name.is_some() {
        return Err(
            AppError::Validation(
                owned("Tool messages and tool calls are managed internally by the agent."),
            ),
        );
    }
    let content = trim(message.content.as_str());
    if content.as_str().is_empty() {
        return Err(AppError::Validation(owned("Message content cannot be empty.")));
    }
    Ok(ChatMessage::plain(message.role, content))
}

/// Checks every message, in order, and gives them back with trimmed content.
pub fn validate_messages(messages: &Vec<ChatMessage>) -> (res: Result<Vec<ChatMessage>, AppError>)
    ensures
        messages@.len() == 0 ==> (res matches Err(AppError::Validation(m)) && m@
            == "At least one chat message is required."@),
        messages@.len() > 0 && (exists|i: int| first_problem_at(messages.deep_view(), i)) ==> (res matches Err(
            AppError::Validation(m),
        ) && Some(m@) == message_problem(
            messages.deep_view()[choose|i: int| first_problem_at(messages.deep_view(), i)],
        )),
        messages@.len() > 0 && !(exists|i: int| first_problem_at(messages.deep_view(), i)) ==> (res matches Ok(
            checked,
        ) && checked.deep_view().len() == messages@.len() && forall|i: int|
            0 <= i < messages@.len() ==> #[trigger] checked.deep_view()[i] == plain_message(
                messages@[i].role,
                trimmed(messages@[i].content@),
            )),
{
    let ghost all = messages.deep_view();
    if messages.len() == 0 {
        return Err(AppError::Validation(owned("At least one chat message is required.")));
    }
    let mut checked: Vec<ChatMessage> = Vec::new();
    let n = messages.len();
    for i in 0..n
        invariant
            n == messages@.len() > 0,
            all == messages.deep_view(),
            checked@.len() == i,
            forall|j: int| 0 <= j < i ==> message_problem(#[trigger] all[j]) is None,
            forall|j: int|
                0 <= j < i ==> #[trigger] checked@[j].deep_view() == plain_message(
                    messages@[j].role,
                    trimmed(messages@[j].content@),
                ),
    {
        match validate_message(&messages[i]) {
            Ok(message) => checked.push(message),
            Err(error) => {
                proof {
                    assert(all[i as int] == messages@[i as int].deep_view());
                    assert(first_problem_at(all, i as int));
                    let k = choose|k: int| first_problem_at(all, k);
                    if k < i {
                        assert(message_problem(all[k]) is None);
                    }
                    if k > i {
                        assert(message_problem(all[i as int]) is None);
                    }
                }
                return Err(error);
            },
        }
    }
    proof {
        assert(!(exists|k: int| first_problem_at(all, k))) by {
            if exists|k: int| first_problem_at(all, k) {
                let k = choose|k: int| first_problem_at(all, k);
                assert(message_problem(all[k]) is None);
            }
        }
        assert forall|i: int| 0 <= i < messages@.len() implies #[trigger] checked.deep_view()[i]
            == plain_message(messages@[i].role, trimmed(messages@[i].content@)) by {
            assert(checked.deep_view()[i] == checked@[i].deep_view());
        }
    }
    Ok(checked)
}

/// Checks a chat request from the front end: the model (trimmed), the messages
/// (trimmed; no tool messages or tool calls), the provider (normalized) and the
/// temperature, in that order; the first problem found is the error.
pub fn validate_chat_request(request: ChatRequest) -> (res: Result<ChatRequest, AppError>)
    ensures
        match request_problem(request.model@, request.messages.deep_view(), request.temperature) {
            Some(p) => res matches Err(AppError::Validation(m)) && m@ == p,
            None => res matches Ok(checked) && {
                &&& checked.model@ == trimmed(request.model@)
                &&& opt_view(checked.provider) == normalized_provider(opt_view(request.provider))
                &&& checked.temperature == request.temperature
                &&& checked.stream == request.stream
                &&& checked.messages.deep_view().len() == request.messages@.len()
                &&& forall|i: int|
                    0 <= i < request.messages@.len() ==> #[trigger] checked.messages.deep_view()[i]
                        == plain_message(
                        request.messages@[i].role,
                        trimmed(request.messages@[i].content@),
                    )
            },
        },
{
    let model = validate_model(request.model.as_str())?;
    let messages = validate_messages(&request.messages)?;
    let provider = normalize_provider(request.provider);
    validate_temperature(request.temperature)?;
    Ok(ChatRequest {
        provider,
        model,
        messages,
        temperature: request.temperature,
        stream: request.stream,
    })
}

/// The messages of a request after validation: each trimmed, without tool
/// calls or tool name.
pub open spec fn checked_messages(messages: Seq<MessageModel>) -> Seq<MessageModel> {
    Seq::new(messages.len(), |i: int| plain_message(messages[i].role, trimmed(messages[i].content)))
}

/// A refused message means that some message is the first refused one.
proof fn lemma_some_first_problem(messages: Seq<MessageModel>, i: int)
    requires
        0 <= i < messages.len(),
        message_problem(messages[i]) is Some,
    ensures
        exists|k: int| first_problem_at(messages, k),
    decreases i,
{
    if forall|j: int| 0 <= j < i ==> message_problem(#[trigger] messages[j]) is None {
        assert(first_problem_at(messages, i));
    } else {
        let j = choose|j: int| 0 <= j < i && message_problem(#[trigger] messages[j]) is Some;
        lemma_some_first_problem(messages, j);
    }
}

/// Validation leaves a validated request as it is: what passed validation
/// passes again, and its model, provider and messages come out unchanged.
pub proof fn law_validation_is_idempotent(
    model: Seq<char>,
    messages: Seq<MessageModel>,
    provider: Option<Seq<char>>,
    temperature: Option<u32>,
)
    requires
        request_problem(model, messages, temperature) is None,
    ensures
        request_problem(trimmed(model), checked_messages(messages), temperature) is None,
        trimmed(trimmed(model)) == trimmed(model),
        checked_messages(checked_messages(messages)) == checked_messages(messages),
        normalized_provider(normalized_provider(provider)) == normalized_provider(provider),
{
    lemma_trimmed_idempotent(model);
    let checked = checked_messages(messages);
    assert forall|i: int| 0 <= i < messages.len() implies message_problem(#[trigger] messages[i]) is None by {
        if message_problem(messages[i]) is Some {
            lemma_some_first_problem(messages, i);
        }
    }
    assert forall|i: int| 0 <= i < checked.len() implies message_problem(#[trigger] checked[i]) is None
        && checked_messages(checked)[i] == checked[i] by {
        assert(message_problem(messages[i]) is None);
        lemma_trimmed_idempotent(messages[i].content);
    }
    assert(!(exists|k: int| first_problem_at(checked, k)));
    assert(checked_messages(checked) =~= checked);
    match provider {
        Some(p) => {
            if trimmed(p).len() > 0 {
                lemma_trimmed_idempotent(p);
                lemma_lower_trimmed(trimmed(p));
            }
        },
        None => {},
    }
}

} // verus!
