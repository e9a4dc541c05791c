//! The research workflow as a state machine. The caller performs each action
//! (reporting a step, asking the planner, describing or running a tool call,
//! asking for the final answer, delivering a chunk) and hands the outcome back
//! as an event; the machine decides what happens next.
//!
//! Each planning round the model may request tool calls; the calls of a turn,
//! and the follow-up calls they produce, run in order within the remaining
//! budget. The research stops when the model asks for nothing more, after
//! `MAX_TOOL_ROUNDS` rounds or after `MAX_TOOL_CALLS` calls; the final answer
//! is then requested from the conversation and the gathered evidence.

use vstd::prelude::*;

use crate::agent::{
    build_final_messages, coverage, FINAL_ANSWER_PROMPT, decision_detail, final_answer_problem, final_messages,
    latest_user, latest_user_request, limit_detail, limit_label, limit_running_detail, planning_decision_detail,
    planning_detail, planning_label, research_coverage, research_limit_detail, planning_step_copy,
    step_id_text, system_message, validate_final_response, StepModel, StepReporter,
    AgentStepEvent, AgentStepStatus, MAX_TOOL_CALLS, MAX_TOOL_ROUNDS, PLANNER_PROMPT,
};
use crate::error::{error_model_text, AppError, ErrorModel};
use crate::json::{json_object_text, spec_json_object_text};
use crate::providers::{
    copy_calls, copy_messages, opt_view, plain_message, ChatMessage, ChatRequest, ChatResponse,
    ChatRole, ChatStreamChunk, MessageModel, ResponseModel, ToolCall, ToolCallModel,
};
use crate::text::{blank, concat, is_blank, owned};
use crate::tools::ToolExecution;

verus! {

/// The note of the assistant message that queues follow-up tool calls.
pub const READING_RESULTS_NOTE: &'static str = "Reading the highest-ranked search results.";

/// The label of the step that writes the final answer.
pub const WRITING_LABEL: &'static str = "Writing the answer";

/// The running detail of the step that writes the final answer.
pub const WRITING_DETAIL: &'static str = "The model is composing the final response.";

/// The completion detail of the step that writes the final answer.
pub const WRITING_DONE_DETAIL: &'static str = "The final response is complete.";

/// Where the workflow stands: what it waits for.
#[derive(Debug, Clone, Copy, PartialEq, Eq, Structural)]
pub enum Phase {
    AwaitPlanStart,
    Planning,
    DescribePlan,
    AwaitPlanComplete,
    DescribeTool,
    AwaitToolStart,
    Executing,
    AwaitToolEnd,
    AwaitLimitStart,
    AwaitLimitComplete,
    AwaitWritingStart,
    Streaming,
    Answering,
    AwaitChunk,
    ReportFailure,
    AwaitWritingComplete,
    Finished,
}

/// What the caller must do next.
#[derive(Debug)]
pub enum AgentAction {
    /// Send this step event to the front end.
    Step(AgentStepEvent),
    /// Ask the provider to plan with the tool definitions offered.
    Plan(ChatRequest),
    /// Describe this tool call (label and detail).
    Describe(ToolCall),
    /// Run this tool call.
    Execute(ToolCall),
    /// Stream the final answer, forwarding each chunk to the front end.
    StreamAnswer(ChatRequest),
    /// Ask for the final answer in one piece.
    RequestAnswer(ChatRequest),
    /// Send this chunk to the front end.
    DeliverChunk(ChatStreamChunk),
    /// The workflow is over with this outcome.
    Finish(Result<ChatResponse, AppError>),
}

/// What came of the last action.
#[derive(Debug)]
pub enum AgentEvent {
    StepDelivered(Result<(), AppError>),
    Planned(Result<ChatResponse, AppError>),
    Described(String, String),
    Executed(Result<ToolExecution, AppError>),
    Streamed(Result<ChatResponse, AppError>),
    Answered(Result<ChatResponse, AppError>),
    ChunkDelivered(Result<(), AppError>),
}

/// The mathematical content of an event.
pub enum EventSpec {
    StepDelivered(Result<(), ErrorModel>),
    Planned(Result<MessageModel, ErrorModel>),
    Described(Seq<char>, Seq<char>),
    Executed(Result<(Seq<char>, Seq<char>, Seq<ToolCallModel>), ErrorModel>),
    Streamed(Result<ResponseModel, ErrorModel>),
    Answered(Result<ResponseModel, ErrorModel>),
    ChunkDelivered(Result<(), ErrorModel>),
}

/// The mathematical content of an action. Requests are given by their
/// messages; the other request fields are those of the user's request, with
/// `stream` off for planning and the one-piece answer and on for streaming.
pub enum ActionSpec {
    Step(StepModel),
    Plan(Seq<MessageModel>),
    Describe(ToolCallModel),
    Execute(ToolCallModel),
    StreamAnswer(Seq<MessageModel>),
    RequestAnswer(Seq<MessageModel>),
    DeliverChunk(ResponseModel),
    Finish(Result<ResponseModel, ErrorModel>),
}

/// The mathematical state of a workflow run.
pub struct RunModel {
    pub phase: Phase,
    pub provider: Option<Seq<char>>,
    pub model_name: Seq<char>,
    pub temperature: Option<u32>,
    pub stream: Option<bool>,
    pub original_messages: Seq<MessageModel>,
    pub original_request: Seq<char>,
    pub messages: Seq<MessageModel>,
    pub next_step: nat,
    pub step_id: Seq<char>,
    pub step_label: Seq<char>,
    pub round: nat,
    pub total_calls: nat,
    pub plan_message: MessageModel,
    pub descriptions: Seq<(Seq<char>, Seq<char>)>,
    pub queue: Seq<Seq<ToolCallModel>>,
    pub turn_max: nat,
    pub turn_executed: nat,
    pub batch: Seq<ToolCallModel>,
    pub batch_pos: nat,
    pub batch_limit: nat,
    pub batch_follow: Seq<ToolCallModel>,
    pub tool_content: Seq<char>,
    pub tool_follow: Seq<ToolCallModel>,
    pub final_messages: Seq<MessageModel>,
    pub answer: Option<ResponseModel>,
    pub failure: Option<ErrorModel>,
}

impl AgentEvent {
    /// The mathematical content of this event.
    pub open spec fn spec(&self) -> EventSpec {
        match self {
            AgentEvent::StepDelivered(r) => EventSpec::StepDelivered(
                match r {
                    Ok(()) => Ok(()),
                    Err(e) => Err(e.deep_view()),
                },
            ),
            AgentEvent::Planned(r) => EventSpec::Planned(
                match r {
                    Ok(resp) => Ok(resp.message.deep_view()),
                    Err(e) => Err(e.deep_view()),
                },
            ),
            AgentEvent::Described(label, detail) => EventSpec::Described(label@, detail@),
            AgentEvent::Executed(r) => EventSpec::Executed(
                match r {
                    Ok(x) => Ok((x.content@, x.detail@, x.follow_up_calls.deep_view())),
                    Err(e) => Err(e.deep_view()),
                },
            ),
            AgentEvent::Streamed(r) => EventSpec::Streamed(
                match r {
                    Ok(resp) => Ok(resp.deep_view()),
                    Err(e) => Err(e.deep_view()),
                },
            ),
            AgentEvent::Answered(r) => EventSpec::Answered(
                match r {
                    Ok(resp) => Ok(resp.deep_view()),
                    Err(e) => Err(e.deep_view()),
                },
            ),
            AgentEvent::ChunkDelivered(r) => EventSpec::ChunkDelivered(
                match r {
                    Ok(()) => Ok(()),
                    Err(e) => Err(e.deep_view()),
                },
            ),
        }
    }
}

/// The request fields of a run, with other messages and stream flag.
pub open spec fn request_matches(
    req: ChatRequest,
    m: RunModel,
    messages: Seq<MessageModel>,
    stream: Option<bool>,
) -> bool {
    &&& opt_view(req.provider) == m.provider
    &&& req.model@ == m.model_name
    &&& req.temperature == m.temperature
    &&& req.stream == stream
    &&& req.messages.deep_view() == messages
}

/// The chunk that carries a whole response.
pub open spec fn chunk_matches(chunk: ChatStreamChunk, r: ResponseModel) -> bool {
    &&& chunk.provider@ == r.provider
    &&& chunk.model@ == r.model
    &&& chunk.delta@ == r.message.content
    &&& chunk.done == r.done
    &&& opt_view(chunk.done_reason) == r.done_reason
    &&& opt_view(chunk.created_at) == r.created_at
}

/// The action carries what the mathematical action describes.
pub open spec fn realizes(action: AgentAction, spec: ActionSpec, m: RunModel) -> bool {
    match (action, spec) {
        (AgentAction::Step(e), ActionSpec::Step(s)) => e.deep_view() == s,
        (AgentAction::Plan(req), ActionSpec::Plan(msgs)) => request_matches(req, m, msgs, Some(false)),
        (AgentAction::Describe(c), ActionSpec::Describe(cm)) => c.deep_view() == cm,
        (AgentAction::Execute(c), ActionSpec::Execute(cm)) => c.deep_view() == cm,
        (AgentAction::StreamAnswer(req), ActionSpec::StreamAnswer(msgs)) => request_matches(
            req,
            m,
            msgs,
            Some(true),
        ),
        (AgentAction::RequestAnswer(req), ActionSpec::RequestAnswer(msgs)) => request_matches(
            req,
            m,
            msgs,
            Some(false),
        ),
        (AgentAction::DeliverChunk(chunk), ActionSpec::DeliverChunk(r)) => chunk_matches(chunk, r),
        (AgentAction::Finish(Ok(r)), ActionSpec::Finish(Ok(rm))) => r.deep_view() == rm,
        (AgentAction::Finish(Err(e)), ActionSpec::Finish(Err(em))) => e.deep_view() == em,
        _ => false,
    }
}

/// The event answers the action the run waits on.
pub open spec fn accepts(m: RunModel, e: EventSpec) -> bool {
    match m.phase {
        Phase::AwaitPlanStart | Phase::AwaitPlanComplete | Phase::AwaitToolStart
        | Phase::AwaitToolEnd | Phase::AwaitLimitStart | Phase::AwaitLimitComplete
        | Phase::AwaitWritingStart | Phase::ReportFailure | Phase::AwaitWritingComplete =>
            e is StepDelivered,
        Phase::Planning => e is Planned,
        Phase::DescribePlan | Phase::DescribeTool => e is Described,
        Phase::Executing => e is Executed,
        Phase::Streaming => e is Streamed,
        Phase::Answering => e is Answered,
        Phase::AwaitChunk => e is ChunkDelivered,
        Phase::Finished => false,
    }
}

/// The phases of a planning round.
pub open spec fn planning_phase(p: Phase) -> bool {
    p == Phase::AwaitPlanStart || p == Phase::Planning || p == Phase::DescribePlan || p
        == Phase::AwaitPlanComplete
}

/// The phases of a tool call.
pub open spec fn tool_phase(p: Phase) -> bool {
    p == Phase::DescribeTool || p == Phase::AwaitToolStart || p == Phase::Executing || p
        == Phase::AwaitToolEnd
}

/// The phases of the research limit step.
pub open spec fn limit_phase(p: Phase) -> bool {
    p == Phase::AwaitLimitStart || p == Phase::AwaitLimitComplete
}

/// The phases of the final answer.
pub open spec fn writing_phase(p: Phase) -> bool {
    p == Phase::AwaitWritingStart || p == Phase::Streaming || p == Phase::Answering || p
        == Phase::AwaitChunk || p == Phase::AwaitWritingComplete
}

/// What every reachable state satisfies.
pub open spec fn wf(m: RunModel) -> bool {
    &&& m.next_step >= 1
    &&& m.total_calls <= MAX_TOOL_CALLS
    &&& m.round <= MAX_TOOL_ROUNDS
    &&& forall|i: int| 0 <= i < m.queue.len() ==> (#[trigger] m.queue[i]).len() > 0
    &&& planning_phase(m.phase) ==> m.round < MAX_TOOL_ROUNDS && m.next_step <= m.round + 2
        + m.total_calls
    &&& m.phase == Phase::DescribePlan ==> m.descriptions.len() < m.plan_message.tool_calls.len()
    &&& tool_phase(m.phase) ==> {
        &&& m.round < MAX_TOOL_ROUNDS
        &&& m.batch_pos < m.batch.len()
        &&& m.batch_pos < m.batch_limit
        &&& m.turn_executed + m.batch_limit == m.turn_max
        &&& m.total_calls + m.turn_max <= MAX_TOOL_CALLS
        &&& m.phase == Phase::DescribeTool ==> m.next_step <= m.round + 2 + m.total_calls
            + m.turn_executed + m.batch_pos
        &&& m.phase != Phase::DescribeTool ==> m.next_step <= m.round + 3 + m.total_calls
            + m.turn_executed + m.batch_pos
    }
    &&& limit_phase(m.phase) ==> m.next_step <= m.round + 3 + m.total_calls
    &&& writing_phase(m.phase) ==> m.next_step <= m.round + 4 + m.total_calls
    &&& writing_phase(m.phase) ==> m.final_messages == final_messages(
        m.original_messages,
        m.messages,
        m.original_request,
    )
    &&& m.phase == Phase::ReportFailure ==> m.failure is Some
    &&& (m.phase == Phase::AwaitChunk || m.phase == Phase::AwaitWritingComplete) ==> m.answer is Some
}

/// Opens a step with the next identifier.
pub open spec fn begin_step(m: RunModel, label: Seq<char>, detail: Seq<char>) -> (RunModel, ActionSpec) {
    (
        RunModel {
            next_step: m.next_step + 1,
            step_id: step_id_text(m.next_step),
            step_label: label,
            ..m
        },
        ActionSpec::Step(
            StepModel {
                id: step_id_text(m.next_step),
                label,
                status: AgentStepStatus::Running,
                detail,
            },
        ),
    )
}

/// The event that closes the open step.
pub open spec fn close_step(m: RunModel, status: AgentStepStatus, detail: Seq<char>) -> ActionSpec {
    ActionSpec::Step(StepModel { id: m.step_id, label: m.step_label, status, detail })
}

/// Starts the planning step of the current round.
pub open spec fn begin_planning(m: RunModel) -> (RunModel, ActionSpec) {
    let (m2, a) = begin_step(m, planning_label(m.round), planning_detail(m.round));
    (RunModel { phase: Phase::AwaitPlanStart, ..m2 }, a)
}

/// Starts the step that stops the research.
pub open spec fn begin_limit(m: RunModel) -> (RunModel, ActionSpec) {
    let (m2, a) = begin_step(m, limit_label(), limit_running_detail());
    (RunModel { phase: Phase::AwaitLimitStart, ..m2 }, a)
}

/// Starts writing the final answer.
pub open spec fn begin_writing(m: RunModel) -> (RunModel, ActionSpec) {
    let (m2, a) = begin_step(m, WRITING_LABEL@, WRITING_DETAIL@);
    (
        RunModel {
            phase: Phase::AwaitWritingStart,
            final_messages: final_messages(m.original_messages, m.messages, m.original_request),
            ..m2
        },
        a,
    )
}

/// Reports that the final answer failed; the run then ends with the error.
pub open spec fn writing_failed(m: RunModel, e: ErrorModel) -> (RunModel, ActionSpec) {
    (
        RunModel { phase: Phase::ReportFailure, failure: Some(e), ..m },
        close_step(
            m,
            AgentStepStatus::Failed,
            "The response could not be completed: "@ + error_model_text(e),
        ),
    )
}

/// Ends the run.
pub open spec fn finish(m: RunModel, r: Result<ResponseModel, ErrorModel>) -> (RunModel, ActionSpec) {
    (RunModel { phase: Phase::Finished, ..m }, ActionSpec::Finish(r))
}

/// Ends a tool turn: counts its calls, then plans again, or stops the research
/// when the call budget or the rounds are used up.
pub open spec fn end_turn(m: RunModel) -> (RunModel, ActionSpec) {
    let total = m.total_calls + m.turn_executed;
    if total >= MAX_TOOL_CALLS {
        begin_limit(RunModel { total_calls: total, ..m })
    } else if m.round + 1 < MAX_TOOL_ROUNDS {
        begin_planning(RunModel { total_calls: total, round: m.round + 1, ..m })
    } else {
        begin_limit(RunModel { total_calls: total, round: m.round + 1, ..m })
    }
}

/// Takes the next batch of the turn while budget remains, else ends the turn.
pub open spec fn next_batch(m: RunModel) -> (RunModel, ActionSpec) {
    if m.turn_executed < m.turn_max && m.queue.len() > 0 {
        (
            RunModel {
                phase: Phase::DescribeTool,
                batch: m.queue[0],
                queue: m.queue.drop_first(),
                batch_pos: 0,
                batch_limit: (m.turn_max - m.turn_executed) as nat,
                batch_follow: Seq::empty(),
                ..m
            },
            ActionSpec::Describe(m.queue[0][0]),
        )
    } else {
        end_turn(m)
    }
}

/// The assistant message that announces queued follow-up calls.
pub open spec fn follow_up_message(calls: Seq<ToolCallModel>) -> MessageModel {
    MessageModel {
        role: ChatRole::Assistant,
        content: READING_RESULTS_NOTE@,
        tool_calls: calls,
        tool_name: None,
    }
}

/// Runs the next call of the batch, or closes the batch: counts its calls,
/// queues its follow-up calls while budget remains, and moves on.
pub open spec fn next_call(m: RunModel) -> (RunModel, ActionSpec) {
    if m.batch_pos < m.batch.len() && m.batch_pos < m.batch_limit {
        (RunModel { phase: Phase::DescribeTool, ..m }, ActionSpec::Describe(m.batch[m.batch_pos as int]))
    } else {
        let executed = m.turn_executed + m.batch_pos;
        let m2 = RunModel { turn_executed: executed, ..m };
        let m3 = if m.batch_follow.len() > 0 && executed < m.turn_max {
            RunModel {
                messages: m2.messages.push(follow_up_message(m.batch_follow)),
                queue: m2.queue.push(m.batch_follow),
                ..m2
            }
        } else {
            m2
        };
        next_batch(m3)
    }
}

/// The message that records a tool result.
pub open spec fn tool_message(content: Seq<char>, name: Seq<char>) -> MessageModel {
    MessageModel { role: ChatRole::Tool, content, tool_calls: Seq::empty(), tool_name: Some(name) }
}

/// The first state of a run on a request whose messages hold a user message.
pub open spec fn initial(
    provider: Option<Seq<char>>,
    model_name: Seq<char>,
    temperature: Option<u32>,
    stream: Option<bool>,
    messages: Seq<MessageModel>,
    original_request: Seq<char>,
) -> RunModel {
    RunModel {
        phase: Phase::AwaitPlanStart,
        provider,
        model_name,
        temperature,
        stream,
        original_messages: messages,
        original_request,
        messages: seq![plain_message(ChatRole::System, PLANNER_PROMPT@)] + messages,
        next_step: 1,
        step_id: Seq::empty(),
        step_label: Seq::empty(),
        round: 0,
        total_calls: 0,
        plan_message: plain_message(ChatRole::Assistant, Seq::empty()),
        descriptions: Seq::empty(),
        queue: Seq::empty(),
        turn_max: 0,
        turn_executed: 0,
        batch: Seq::empty(),
        batch_pos: 0,
        batch_limit: 0,
        batch_follow: Seq::empty(),
        tool_content: Seq::empty(),
        tool_follow: Seq::empty(),
        final_messages: Seq::empty(),
        answer: None,
        failure: None,
    }
}

/// What a run does with an event: its next state and its next action.
pub open spec fn step(m: RunModel, e: EventSpec) -> (RunModel, ActionSpec) {
    match m.phase {
        Phase::AwaitPlanStart => match e {
            EventSpec::StepDelivered(Ok(())) => (
                RunModel { phase: Phase::Planning, ..m },
                ActionSpec::Plan(m.messages),
            ),
            EventSpec::StepDelivered(Err(x)) => finish(m, Err(x)),
            _ => (m, ActionSpec::Finish(Err(ErrorModel::EventEmit(Seq::empty())))),
        },
        Phase::Planning => match e {
            EventSpec::Planned(Err(x)) => (
                RunModel { phase: Phase::ReportFailure, failure: Some(x), ..m },
                close_step(
                    m,
                    AgentStepStatus::Failed,
                    "The model could not plan the next action: "@ + error_model_text(x),
                ),
            ),
            EventSpec::Planned(Ok(msg)) => {
                let m2 = RunModel { plan_message: msg, descriptions: Seq::empty(), ..m };
                if msg.tool_calls.len() == 0 {
                    (
                        RunModel { phase: Phase::AwaitPlanComplete, ..m2 },
                        close_step(
                            m,
                            AgentStepStatus::Completed,
                            decision_detail(
                                coverage(m.messages).0,
                                coverage(m.messages).1,
                                Seq::empty(),
                            ),
                        ),
                    )
                } else {
                    (RunModel { phase: Phase::DescribePlan, ..m2 }, ActionSpec::Describe(msg.tool_calls[0]))
                }
            },
            _ => (m, ActionSpec::Finish(Err(ErrorModel::EventEmit(Seq::empty())))),
        },
        Phase::DescribePlan => match e {
            EventSpec::Described(label, detail) => {
                let ds = m.descriptions.push((label, detail));
                if ds.len() < m.plan_message.tool_calls.len() {
                    (
                        RunModel { descriptions: ds, ..m },
                        ActionSpec::Describe(m.plan_message.tool_calls[ds.len() as int]),
                    )
                } else {
                    (
                        RunModel { descriptions: ds, phase: Phase::AwaitPlanComplete, ..m },
                        close_step(
                            m,
                            AgentStepStatus::Completed,
                            decision_detail(coverage(m.messages).0, coverage(m.messages).1, ds),
                        ),
                    )
                }
            },
            _ => (m, ActionSpec::Finish(Err(ErrorModel::EventEmit(Seq::empty())))),
        },
        Phase::AwaitPlanComplete => match e {
            EventSpec::StepDelivered(Ok(())) => {
                let m2 = RunModel { messages: m.messages.push(m.plan_message), ..m };
                let calls = m.plan_message.tool_calls;
                if calls.len() == 0 {
                    begin_writing(m2)
                } else if m.total_calls >= MAX_TOOL_CALLS {
                    begin_limit(m2)
                } else {
                    next_batch(
                        RunModel {
                            queue: seq![calls],
                            turn_max: (MAX_TOOL_CALLS - m.total_calls) as nat,
                            turn_executed: 0,
                            ..m2
                        },
                    )
                }
            },
            EventSpec::StepDelivered(Err(x)) => finish(m, Err(x)),
            _ => (m, ActionSpec::Finish(Err(ErrorModel::EventEmit(Seq::empty())))),
        },
        Phase::DescribeTool => match e {
            EventSpec::Described(label, detail) => {
                let (m2, a) = begin_step(m, label, detail);
                (RunModel { phase: Phase::AwaitToolStart, ..m2 }, a)
            },
            _ => (m, ActionSpec::Finish(Err(ErrorModel::EventEmit(Seq::empty())))),
        },
        Phase::AwaitToolStart => match e {
            EventSpec::StepDelivered(Ok(())) => (
                RunModel { phase: Phase::Executing, ..m },
                ActionSpec::Execute(m.batch[m.batch_pos as int]),
            ),
            EventSpec::StepDelivered(Err(x)) => finish(m, Err(x)),
            _ => (m, ActionSpec::Finish(Err(ErrorModel::EventEmit(Seq::empty())))),
        },
        Phase::Executing => match e {
            EventSpec::Executed(Ok((content, detail, follow))) => (
                RunModel {
                    phase: Phase::AwaitToolEnd,
                    tool_content: content,
                    tool_follow: follow,
                    ..m
                },
                close_step(m, AgentStepStatus::Completed, detail),
            ),
            EventSpec::Executed(Err(x)) => (
                RunModel {
                    phase: Phase::AwaitToolEnd,
                    tool_content: spec_json_object_text("error"@, error_model_text(x)),
                    tool_follow: Seq::empty(),
                    ..m
                },
                close_step(m, AgentStepStatus::Failed, error_model_text(x)),
            ),
            _ => (m, ActionSpec::Finish(Err(ErrorModel::EventEmit(Seq::empty())))),
        },
        Phase::AwaitToolEnd => match e {
            EventSpec::StepDelivered(Ok(())) => next_call(
                RunModel {
                    messages: m.messages.push(
                        tool_message(m.tool_content, m.batch[m.batch_pos as int].name),
                    ),
                    batch_follow: m.batch_follow + m.tool_follow,
                    batch_pos: m.batch_pos + 1,
                    ..m
                },
            ),
            EventSpec::StepDelivered(Err(x)) => finish(m, Err(x)),
            _ => (m, ActionSpec::Finish(Err(ErrorModel::EventEmit(Seq::empty())))),
        },
        Phase::AwaitLimitStart => match e {
            EventSpec::StepDelivered(Ok(())) => (
                RunModel { phase: Phase::AwaitLimitComplete, ..m },
                close_step(
                    m,
                    AgentStepStatus::Completed,
                    limit_detail(m.total_calls, coverage(m.messages).0, coverage(m.messages).1),
                ),
            ),
            EventSpec::StepDelivered(Err(x)) => finish(m, Err(x)),
            _ => (m, ActionSpec::Finish(Err(ErrorModel::EventEmit(Seq::empty())))),
        },
        Phase::AwaitLimitComplete => match e {
            EventSpec::StepDelivered(Ok(())) => begin_writing(m),
            EventSpec::StepDelivered(Err(x)) => finish(m, Err(x)),
            _ => (m, ActionSpec::Finish(Err(ErrorModel::EventEmit(Seq::empty())))),
        },
        Phase::AwaitWritingStart => match e {
            EventSpec::StepDelivered(Ok(())) => (
                RunModel { phase: Phase::Streaming, ..m },
                ActionSpec::StreamAnswer(m.final_messages),
            ),
            EventSpec::StepDelivered(Err(x)) => finish(m, Err(x)),
            _ => (m, ActionSpec::Finish(Err(ErrorModel::EventEmit(Seq::empty())))),
        },
        Phase::Streaming => match e {
            EventSpec::Streamed(Err(x)) => writing_failed(m, x),
            EventSpec::Streamed(Ok(r)) => if is_blank(r.message.content) {
                (RunModel { phase: Phase::Answering, ..m }, ActionSpec::RequestAnswer(m.final_messages))
            } else {
                match final_answer_problem(r.message.role, r.message.content, r.done_reason) {
                    Some(problem) => writing_failed(m, ErrorModel::ProviderProtocol(problem)),
                    None => (
                        RunModel { phase: Phase::AwaitWritingComplete, answer: Some(r), ..m },
                        close_step(m, AgentStepStatus::Completed, WRITING_DONE_DETAIL@),
                    ),
                }
            },
            _ => (m, ActionSpec::Finish(Err(ErrorModel::EventEmit(Seq::empty())))),
        },
        Phase::Answering => match e {
            EventSpec::Answered(Err(x)) => writing_failed(m, x),
            EventSpec::Answered(Ok(r)) => match final_answer_problem(
                r.message.role,
                r.message.content,
                r.done_reason,
            ) {
                Some(problem) => writing_failed(m, ErrorModel::ProviderProtocol(problem)),
                None => (
                    RunModel { phase: Phase::AwaitChunk, answer: Some(r), ..m },
                    ActionSpec::DeliverChunk(r),
                ),
            },
            _ => (m, ActionSpec::Finish(Err(ErrorModel::EventEmit(Seq::empty())))),
        },
        Phase::AwaitChunk => match e {
            EventSpec::ChunkDelivered(Ok(())) => (
                RunModel { phase: Phase::AwaitWritingComplete, ..m },
                close_step(m, AgentStepStatus::Completed, WRITING_DONE_DETAIL@),
            ),
            EventSpec::ChunkDelivered(Err(x)) => writing_failed(m, x),
            _ => (m, ActionSpec::Finish(Err(ErrorModel::EventEmit(Seq::empty())))),
        },
        Phase::ReportFailure => match e {
            EventSpec::StepDelivered(_) => finish(m, Err(m.failure.unwrap())),
            _ => (m, ActionSpec::Finish(Err(ErrorModel::EventEmit(Seq::empty())))),
        },
        Phase::AwaitWritingComplete => match e {
            EventSpec::StepDelivered(Ok(())) => finish(m, Ok(m.answer.unwrap())),
            EventSpec::StepDelivered(Err(x)) => finish(m, Err(x)),
            _ => (m, ActionSpec::Finish(Err(ErrorModel::EventEmit(Seq::empty())))),
        },
        Phase::Finished => (m, ActionSpec::Finish(Err(ErrorModel::EventEmit(Seq::empty())))),
    }
}

/// One run of the research workflow.
pub struct AgentRun {
    phase: Phase,
    request: ChatRequest,
    original_request: String,
    messages: Vec<ChatMessage>,
    reporter: StepReporter,
    step_id: String,
    step_label: String,
    round: usize,
    total_calls: usize,
    plan_message: ChatMessage,
    descriptions: Vec<(String, String)>,
    queue: Vec<Vec<ToolCall>>,
    turn_max: usize,
    turn_executed: usize,
    batch: Vec<ToolCall>,
    batch_pos: usize,
    batch_limit: usize,
    batch_follow: Vec<ToolCall>,
    tool_content: String,
    tool_follow: Vec<ToolCall>,
    final_messages: Vec<ChatMessage>,
    answer: Option<ChatResponse>,
    failure: Option<AppError>,
}

impl AgentRun {
    /// The mathematical state of this run.
    pub closed spec fn model(&self) -> RunModel {
        RunModel {
            phase: self.phase,
            provider: opt_view(self.request.provider),
            model_name: self.request.model@,
            temperature: self.request.temperature,
            stream: self.request.stream,
            original_messages: self.request.messages.deep_view(),
            original_request: self.original_request@,
            messages: self.messages.deep_view(),
            next_step: self.reporter.next_id as nat,
            step_id: self.step_id@,
            step_label: self.step_label@,
            round: self.round as nat,
            total_calls: self.total_calls as nat,
            plan_message: self.plan_message.deep_view(),
            descriptions: self.descriptions.deep_view(),
            queue: self.queue.deep_view(),
            turn_max: self.turn_max as nat,
            turn_executed: self.turn_executed as nat,
            batch: self.batch.deep_view(),
            batch_pos: self.batch_pos as nat,
            batch_limit: self.batch_limit as nat,
            batch_follow: self.batch_follow.deep_view(),
            tool_content: self.tool_content@,
            tool_follow: self.tool_follow.deep_view(),
            final_messages: self.final_messages.deep_view(),
            answer: match self.answer {
                Some(r) => Some(r.deep_view()),
                None => None,
            },
            failure: match self.failure {
                Some(e) => Some(e.deep_view()),
                None => None,
            },
        }
    }

    /// Starts a run on a request: the planning step of the first round opens,
    /// or the run ends at once when the request holds no user message.
    pub fn start(request: ChatRequest) -> (res: (AgentRun, AgentAction))
        ensures
            match latest_user(request.messages.deep_view()) {
                None => {
                    &&& res.0.model().phase == Phase::Finished
                    &&& res.1 matches AgentAction::Finish(Err(AppError::Validation(m)))
                    &&& m@ == "A user message is required for the agent workflow."@
                },
                Some(original) => {
                    let first = begin_planning(
                        initial(
                            opt_view(request.provider),
                            request.model@,
                            request.temperature,
                            request.stream,
                            request.messages.deep_view(),
                            original,
                        ),
                    );
                    &&& res.0.model() == first.0
                    &&& realizes(res.1, first.1, res.0.model())
                    &&& wf(res.0.model())
                },
            },
    {
        let original = latest_user_request(&request.messages);
        let mut messages: Vec<ChatMessage> = Vec::new();
        let ok = original.is_ok();
        if ok {
            messages.push(system_message(PLANNER_PROMPT));
            let n = request.messages.len();
            for i in 0..n
                invariant
                    n == request.messages@.len(),
                    messages@.len() == i + 1,
                    messages@[0].deep_view() == plain_message(ChatRole::System, PLANNER_PROMPT@),
                    forall|j: int|
                        0 <= j < i ==> #[trigger] messages@[j + 1].deep_view()
                            == request.messages@[j].deep_view(),
            {
                messages.push(request.messages[i].copy());
            }
            proof {
                let expected = seq![plain_message(ChatRole::System, PLANNER_PROMPT@)]
                    + request.messages.deep_view();
                assert forall|j: int| 0 <= j < messages@.len() implies #[trigger] messages.deep_view()[j]
                    == expected[j] by {
                    if j >= 1 {
                        assert(messages@[(j - 1) + 1].deep_view() == request.messages@[j - 1].deep_view());
                    }
                }
                assert(messages.deep_view() =~= expected);
            }
        }
        let original_text = match original {
            Ok(text) => text,
            Err(error) => {
                let run = AgentRun::empty(request, messages, Phase::Finished);
                return (run, AgentAction::Finish(Err(error)));
            },
        };
        let mut run = AgentRun::empty(request, messages, Phase::AwaitPlanStart);
        run.original_request = original_text;
        proof {
            assert(run.descriptions.deep_view() =~= Seq::<(Seq<char>, Seq<char>)>::empty());
            assert(run.queue.deep_view() =~= Seq::<Seq<ToolCallModel>>::empty());
            assert(run.batch.deep_view() =~= Seq::<ToolCallModel>::empty());
            assert(run.batch_follow.deep_view() =~= Seq::<ToolCallModel>::empty());
            assert(run.tool_follow.deep_view() =~= Seq::<ToolCallModel>::empty());
            assert(run.final_messages.deep_view() =~= Seq::<MessageModel>::empty());
        }
        let action = run.begin_planning();
        (run, action)
    }

    fn empty(request: ChatRequest, messages: Vec<ChatMessage>, phase: Phase) -> (res: AgentRun)
        ensures
            res.phase == phase,
            res.request == request,
            res.messages == messages,
            res.original_request@ == Seq::<char>::empty(),
            res.reporter.next_id == 1,
            res.step_id@ == Seq::<char>::empty(),
            res.step_label@ == Seq::<char>::empty(),
            res.round == 0,
            res.total_calls == 0,
            res.plan_message.deep_view() == plain_message(ChatRole::Assistant, Seq::empty()),
            res.descriptions@.len() == 0,
            res.queue@.len() == 0,
            res.turn_max == 0,
            res.turn_executed == 0,
            res.batch@.len() == 0,
            res.batch_pos == 0,
            res.batch_limit == 0,
            res.batch_follow@.len() == 0,
            res.tool_content@ == Seq::<char>::empty(),
            res.tool_follow@.len() == 0,
            res.final_messages@.len() == 0,
            res.answer is None,
            res.failure is None,
    {
        AgentRun {
            phase,
            request,
            original_request: String::new(),
            messages,
            reporter: StepReporter::new(),
            step_id: String::new(),
            step_label: String::new(),
            round: 0,
            total_calls: 0,
            plan_message: ChatMessage::plain(ChatRole::Assistant, String::new()),
            descriptions: Vec::new(),
            queue: Vec::new(),
            turn_max: 0,
            turn_executed: 0,
            batch: Vec::new(),
            batch_pos: 0,
            batch_limit: 0,
            batch_follow: Vec::new(),
            tool_content: String::new(),
            tool_follow: Vec::new(),
            final_messages: Vec::new(),
            answer: None,
            failure: None,
        }
    }

    fn begin_step(&mut self, label: &str, detail: &str) -> (a: AgentAction)
        requires
            old(self).reporter.next_id < 64,
        ensures
            final(self).model() == begin_step(old(self).model(), label@, detail@).0,
            realizes(a, begin_step(old(self).model(), label@, detail@).1, final(self).model()),
    {
        let (id, event) = self.reporter.start(label, detail);
        self.step_id = id;
        self.step_label = owned(label);
        AgentAction::Step(event)
    }

    fn close_step(&self, status: AgentStepStatus, detail: &str) -> (a: AgentAction)
        ensures
            realizes(a, close_step(self.model(), status, detail@), self.model()),
    {
        AgentAction::Step(self.reporter.update(self.step_id.as_str(), self.step_label.as_str(), status, detail))
    }

    fn begin_planning(&mut self) -> (a: AgentAction)
        requires
            old(self).reporter.next_id < 64,
        ensures
            final(self).model() == begin_planning(old(self).model()).0,
            realizes(a, begin_planning(old(self).model()).1, final(self).model()),
    {
        let (label, detail) = planning_step_copy(self.round);
        let a = self.begin_step(label, detail);
        self.phase = Phase::AwaitPlanStart;
        a
    }

    fn begin_limit(&mut self) -> (a: AgentAction)
        requires
            old(self).reporter.next_id < 64,
        ensures
            final(self).model() == begin_limit(old(self).model()).0,
            realizes(a, begin_limit(old(self).model()).1, final(self).model()),
    {
        let a = self.begin_step(
            "Research limit reached",
            "Taurus is stopping further browsing to prevent a research loop.",
        );
        self.phase = Phase::AwaitLimitStart;
        a
    }

    fn begin_writing(&mut self) -> (a: AgentAction)
        requires
            old(self).reporter.next_id < 64,
        ensures
            final(self).model() == begin_writing(old(self).model()).0,
            realizes(a, begin_writing(old(self).model()).1, final(self).model()),
    {
        self.final_messages = build_final_messages(
            &self.request.messages,
            &self.messages,
            self.original_request.as_str(),
        );
        let a = self.begin_step(WRITING_LABEL, WRITING_DETAIL);
        self.phase = Phase::AwaitWritingStart;
        a
    }

    fn writing_failed(&mut self, error: AppError) -> (a: AgentAction)
        ensures
            final(self).model() == writing_failed(old(self).model(), error.deep_view()).0,
            realizes(a, writing_failed(old(self).model(), error.deep_view()).1, final(self).model()),
    {
        let detail = concat("The response could not be completed: ", error.message().as_str());
        let a = self.close_step(AgentStepStatus::Failed, detail.as_str());
        self.failure = Some(error);
        self.phase = Phase::ReportFailure;
        a
    }

    fn finish(&mut self, outcome: Result<ChatResponse, AppError>) -> (a: AgentAction)
        ensures
            final(self).model() == finish(
                old(self).model(),
                match outcome {
                    Ok(r) => Ok(r.deep_view()),
                    Err(e) => Err(e.deep_view()),
                },
            ).0,
            realizes(
                a,
                finish(
                    old(self).model(),
                    match outcome {
                        Ok(r) => Ok(r.deep_view()),
                        Err(e) => Err(e.deep_view()),
                    },
                ).1,
                final(self).model(),
            ),
    {
        self.phase = Phase::Finished;
        AgentAction::Finish(outcome)
    }

    fn end_turn(&mut self) -> (a: AgentAction)
        requires
            old(self).reporter.next_id < 64,
            old(self).total_calls + old(self).turn_executed <= MAX_TOOL_CALLS,
            old(self).round < MAX_TOOL_ROUNDS,
        ensures
            final(self).model() == end_turn(old(self).model()).0,
            realizes(a, end_turn(old(self).model()).1, final(self).model()),
    {
        self.total_calls = self.total_calls + self.turn_executed;
        if self.total_calls >= MAX_TOOL_CALLS {
            self.begin_limit()
        } else if self.round + 1 < MAX_TOOL_ROUNDS {
            self.round = self.round + 1;
            self.begin_planning()
        } else {
            self.round = self.round + 1;
            self.begin_limit()
        }
    }

    fn next_batch(&mut self) -> (a: AgentAction)
        requires
            old(self).reporter.next_id < 64,
            old(self).total_calls + old(self).turn_executed <= MAX_TOOL_CALLS,
            old(self).turn_executed <= old(self).turn_max,
            old(self).round < MAX_TOOL_ROUNDS,
            forall|i: int| 0 <= i < old(self).queue.deep_view().len() ==> (#[trigger] old(self).queue.deep_view()[i]).len() > 0,
        ensures
            final(self).model() == next_batch(old(self).model()).0,
            realizes(a, next_batch(old(self).model()).1, final(self).model()),
    {
        if self.turn_executed < self.turn_max && self.queue.len() > 0 {
            let ghost old_queue = self.queue.deep_view();
            let batch = self.queue.remove(0);
            proof {
                assert(self.queue.deep_view() =~= old_queue.drop_first());
                assert(batch.deep_view() == old_queue[0]);
                assert(batch.deep_view().len() > 0);
            }
            let first = batch[0].copy();
            self.batch = batch;
            self.batch_pos = 0;
            self.batch_limit = self.turn_max - self.turn_executed;
            self.batch_follow = Vec::new();
            self.phase = Phase::DescribeTool;
            proof {
                assert(self.batch_follow.deep_view() =~= Seq::<ToolCallModel>::empty());
            }
            AgentAction::Describe(first)
        } else {
            self.end_turn()
        }
    }

    fn next_call(&mut self) -> (a: AgentAction)
        requires
            old(self).reporter.next_id < 64,
            old(self).total_calls + old(self).turn_max <= MAX_TOOL_CALLS,
            old(self).turn_executed + old(self).batch_limit == old(self).turn_max,
            old(self).batch_pos <= old(self).batch_limit,
            old(self).round < MAX_TOOL_ROUNDS,
            forall|i: int| 0 <= i < old(self).queue.deep_view().len() ==> (#[trigger] old(self).queue.deep_view()[i]).len() > 0,
        ensures
            final(self).model() == next_call(old(self).model()).0,
            realizes(a, next_call(old(self).model()).1, final(self).model()),
    {
        if self.batch_pos < self.batch.len() && self.batch_pos < self.batch_limit {
            self.phase = Phase::DescribeTool;
            return AgentAction::Describe(self.batch[self.batch_pos].copy());
        }
        self.turn_executed = self.turn_executed + self.batch_pos;
        if self.batch_follow.len() > 0 && self.turn_executed < self.turn_max {
            let ghost old_messages = self.messages.deep_view();
            let ghost old_queue = self.queue.deep_view();
            let follow = copy_calls(&self.batch_follow);
            let note = ChatMessage {
                role: ChatRole::Assistant,
                content: owned(READING_RESULTS_NOTE),
                tool_calls: follow,
                tool_name: None,
            };
            self.messages.push(note);
            let queued = copy_calls(&self.batch_follow);
            self.queue.push(queued);
            proof {
                assert(self.messages.deep_view() =~= old_messages.push(
                    follow_up_message(self.batch_follow.deep_view()),
                ));
                assert(self.queue.deep_view() =~= old_queue.push(self.batch_follow.deep_view()));
            }
        }
        self.next_batch()
    }

    /// The phase the run is in.
    pub fn phase(&self) -> (res: Phase)
        ensures
            res == self.model().phase,
    {
        self.phase
    }

    /// Takes the outcome of the last action and gives the next action.
    /// An event that does not answer the action the run waits on (or any event
    /// once the run is over) leaves the run as it is and is answered with a
    /// delivery error.
    pub fn advance(&mut self, event: AgentEvent) -> (action: AgentAction)
        requires
            wf(old(self).model()),
        ensures
            final(self).model() == step(old(self).model(), event.spec()).0,
            realizes(action, step(old(self).model(), event.spec()).1, final(self).model()),
            wf(final(self).model()),
            !accepts(old(self).model(), event.spec()) ==> final(self).model() == old(self).model()
                && (action matches AgentAction::Finish(Err(AppError::EventEmit(m))) && m@
                == Seq::<char>::empty()),
    {
        if !self.accepts_event(&event) {
            let action = AgentAction::Finish(Err(AppError::EventEmit(String::new())));
            proof {
                lemma_unaccepted_event(self.model(), event.spec());
            }
            return action;
        }
        proof {
            lemma_step_wf(self.model(), event.spec());
        }
        match self.phase {
            Phase::AwaitPlanStart => self.on_await_plan_start(event),
            Phase::Planning => self.on_planning(event),
            Phase::DescribePlan => self.on_describe_plan(event),
            Phase::AwaitPlanComplete => self.on_await_plan_complete(event),
            Phase::DescribeTool => self.on_describe_tool(event),
            Phase::AwaitToolStart => self.on_await_tool_start(event),
            Phase::Executing => self.on_executing(event),
            Phase::AwaitToolEnd => self.on_await_tool_end(event),
            Phase::AwaitLimitStart => self.on_await_limit_start(event),
            Phase::AwaitLimitComplete => self.on_await_limit_complete(event),
            Phase::AwaitWritingStart => self.on_await_writing_start(event),
            Phase::Streaming => self.on_streaming(event),
            Phase::Answering => self.on_answering(event),
            Phase::AwaitChunk => self.on_await_chunk(event),
            Phase::ReportFailure => self.on_report_failure(event),
            Phase::AwaitWritingComplete => self.on_await_writing_complete(event),
            Phase::Finished => AgentAction::Finish(Err(AppError::EventEmit(String::new()))),
        }
    }

    /// Whether the event answers the action the run waits on.
    fn accepts_event(&self, event: &AgentEvent) -> (r: bool)
        ensures
            r == accepts(self.model(), event.spec()),
    {
        match self.phase {
            Phase::AwaitPlanStart | Phase::AwaitPlanComplete | Phase::AwaitToolStart
            | Phase::AwaitToolEnd | Phase::AwaitLimitStart | Phase::AwaitLimitComplete
            | Phase::AwaitWritingStart | Phase::ReportFailure | Phase::AwaitWritingComplete => {
                matches!(event, AgentEvent::StepDelivered(_))
            },
            Phase::Planning => matches!(event, AgentEvent::Planned(_)),
            Phase::DescribePlan | Phase::DescribeTool => matches!(event, AgentEvent::Described(_, _)),
            Phase::Executing => matches!(event, AgentEvent::Executed(_)),
            Phase::Streaming => matches!(event, AgentEvent::Streamed(_)),
            Phase::Answering => matches!(event, AgentEvent::Answered(_)),
            Phase::AwaitChunk => matches!(event, AgentEvent::ChunkDelivered(_)),
            Phase::Finished => false,
        }
    }

    fn on_await_plan_start(&mut self, event: AgentEvent) -> (action: AgentAction)
        requires
            wf(old(self).model()),
            accepts(old(self).model(), event.spec()),
            old(self).phase == Phase::AwaitPlanStart,
        ensures
            final(self).model() == step(old(self).model(), event.spec()).0,
            realizes(action, step(old(self).model(), event.spec()).1, final(self).model()),
    {
        match event {
            AgentEvent::StepDelivered(Ok(())) => {
                let messages = copy_messages(&self.messages);
                let request = self.request.with_messages(messages, Some(false));
                self.phase = Phase::Planning;
                AgentAction::Plan(request)
            },
            AgentEvent::StepDelivered(Err(error)) => self.finish(Err(error)),
            _ => AgentAction::Finish(Err(AppError::EventEmit(String::new()))),
        }
    }

    fn on_planning(&mut self, event: AgentEvent) -> (action: AgentAction)
        requires
            wf(old(self).model()),
            accepts(old(self).model(), event.spec()),
            old(self).phase == Phase::Planning,
        ensures
            final(self).model() == step(old(self).model(), event.spec()).0,
            realizes(action, step(old(self).model(), event.spec()).1, final(self).model()),
    {
        match event {
            AgentEvent::Planned(Err(error)) => {
                let detail = concat(
                    "The model could not plan the next action: ",
                    error.message().as_str(),
                );
                let a = self.close_step(AgentStepStatus::Failed, detail.as_str());
                self.failure = Some(error);
                self.phase = Phase::ReportFailure;
                a
            },
            AgentEvent::Planned(Ok(response)) => {
                let (searches, pages) = research_coverage(&self.messages);
                self.plan_message = response.message;
                self.descriptions = Vec::new();
                proof {
                    assert(self.descriptions.deep_view() =~= Seq::<(Seq<char>, Seq<char>)>::empty());
                }
                if self.plan_message.tool_calls.len() == 0 {
                    let detail = planning_decision_detail(searches, pages, &self.descriptions);
                    let a = self.close_step(AgentStepStatus::Completed, detail.as_str());
                    self.phase = Phase::AwaitPlanComplete;
                    a
                } else {
                    self.phase = Phase::DescribePlan;
                    AgentAction::Describe(self.plan_message.tool_calls[0].copy())
                }
            },
            _ => AgentAction::Finish(Err(AppError::EventEmit(String::new()))),
        }
    }

    fn on_describe_plan(&mut self, event: AgentEvent) -> (action: AgentAction)
        requires
            wf(old(self).model()),
            accepts(old(self).model(), event.spec()),
            old(self).phase == Phase::DescribePlan,
        ensures
            final(self).model() == step(old(self).model(), event.spec()).0,
            realizes(action, step(old(self).model(), event.spec()).1, final(self).model()),
    {
        match event {
            AgentEvent::Described(label, detail) => {
                let ghost old_descriptions = self.descriptions.deep_view();
                self.descriptions.push((label, detail));
                proof {
                    assert(self.descriptions.deep_view() =~= old_descriptions.push((label@, detail@)));
                }
                let k = self.descriptions.len();
                if k < self.plan_message.tool_calls.len() {
                    AgentAction::Describe(self.plan_message.tool_calls[k].copy())
                } else {
                    let (searches, pages) = research_coverage(&self.messages);
                    let text = planning_decision_detail(searches, pages, &self.descriptions);
                    let a = self.close_step(AgentStepStatus::Completed, text.as_str());
                    self.phase = Phase::AwaitPlanComplete;
                    a
                }
            },
            _ => AgentAction::Finish(Err(AppError::EventEmit(String::new()))),
        }
    }

    fn on_await_plan_complete(&mut self, event: AgentEvent) -> (action: AgentAction)
        requires
            wf(old(self).model()),
            accepts(old(self).model(), event.spec()),
            old(self).phase == Phase::AwaitPlanComplete,
        ensures
            final(self).model() == step(old(self).model(), event.spec()).0,
            realizes(action, step(old(self).model(), event.spec()).1, final(self).model()),
    {
        match event {
            AgentEvent::StepDelivered(Ok(())) => {
                let calls = copy_calls(&self.plan_message.tool_calls);
                let ghost old_messages = self.messages.deep_view();
                let ghost planned = self.plan_message.deep_view();
                self.messages.push(self.plan_message.copy());
                proof {
                    assert(self.messages.deep_view() =~= old_messages.push(planned));
                }
                if calls.len() == 0 {
                    self.begin_writing()
                } else if self.total_calls >= MAX_TOOL_CALLS {
                    self.begin_limit()
                } else {
                    let ghost calls_view = calls.deep_view();
                    let mut queue: Vec<Vec<ToolCall>> = Vec::new();
                    queue.push(calls);
                    self.queue = queue;
                    self.turn_max = MAX_TOOL_CALLS - self.total_calls;
                    self.turn_executed = 0;
                    proof {
                        assert(self.queue.deep_view() =~= seq![calls_view]);
                    }
                    self.next_batch()
                }
            },
            AgentEvent::StepDelivered(Err(error)) => self.finish(Err(error)),
            _ => AgentAction::Finish(Err(AppError::EventEmit(String::new()))),
        }
    }

    fn on_describe_tool(&mut self, event: AgentEvent) -> (action: AgentAction)
        requires
            wf(old(self).model()),
            accepts(old(self).model(), event.spec()),
            old(self).phase == Phase::DescribeTool,
        ensures
            final(self).model() == step(old(self).model(), event.spec()).0,
            realizes(action, step(old(self).model(), event.spec()).1, final(self).model()),
    {
        match event {
            AgentEvent::Described(label, detail) => {
                let a = self.begin_step(label.as_str(), detail.as_str());
                self.phase = Phase::AwaitToolStart;
                a
            },
            _ => AgentAction::Finish(Err(AppError::EventEmit(String::new()))),
        }
    }

    fn on_await_tool_start(&mut self, event: AgentEvent) -> (action: AgentAction)
        requires
            wf(old(self).model()),
            accepts(old(self).model(), event.spec()),
            old(self).phase == Phase::AwaitToolStart,
        ensures
            final(self).model() == step(old(self).model(), event.spec()).0,
            realizes(action, step(old(self).model(), event.spec()).1, final(self).model()),
    {
        match event {
            AgentEvent::StepDelivered(Ok(())) => {
                self.phase = Phase::Executing;
                AgentAction::Execute(self.batch[self.batch_pos].copy())
            },
            AgentEvent::StepDelivered(Err(error)) => self.finish(Err(error)),
            _ => AgentAction::Finish(Err(AppError::EventEmit(String::new()))),
        }
    }

    fn on_executing(&mut self, event: AgentEvent) -> (action: AgentAction)
        requires
            wf(old(self).model()),
            accepts(old(self).model(), event.spec()),
            old(self).phase == Phase::Executing,
        ensures
            final(self).model() == step(old(self).model(), event.spec()).0,
            realizes(action, step(old(self).model(), event.spec()).1, final(self).model()),
    {
        match event {
            AgentEvent::Executed(Ok(execution)) => {
                let a = self.close_step(AgentStepStatus::Completed, execution.detail.as_str());
                self.tool_content = execution.content;
                self.tool_follow = execution.follow_up_calls;
                self.phase = Phase::AwaitToolEnd;
                a
            },
            AgentEvent::Executed(Err(error)) => {
                let message = error.message();
                let a = self.close_step(AgentStepStatus::Failed, message.as_str());
                self.tool_content = json_object_text("error", message.as_str());
                self.tool_follow = Vec::new();
                proof {
                    assert(self.tool_follow.deep_view() =~= Seq::<ToolCallModel>::empty());
                }
                self.phase = Phase::AwaitToolEnd;
                a
            },
            _ => AgentAction::Finish(Err(AppError::EventEmit(String::new()))),
        }
    }

    fn on_await_tool_end(&mut self, event: AgentEvent) -> (action: AgentAction)
        requires
            wf(old(self).model()),
            accepts(old(self).model(), event.spec()),
            old(self).phase == Phase::AwaitToolEnd,
        ensures
            final(self).model() == step(old(self).model(), event.spec()).0,
            realizes(action, step(old(self).model(), event.spec()).1, final(self).model()),
    {
        match event {
            AgentEvent::StepDelivered(Ok(())) => {
                let ghost old_messages = self.messages.deep_view();
                let ghost old_follow = self.batch_follow.deep_view();
                let ghost added = self.tool_follow.deep_view();
                let name = self.batch[self.batch_pos].function.name.clone();
                let content = self.tool_content.clone();
                let record = ChatMessage {
                    role: ChatRole::Tool,
                    content,
                    tool_calls: Vec::new(),
                    tool_name: Some(name),
                };
                proof {
                    assert(record.tool_calls.deep_view() =~= Seq::<ToolCallModel>::empty());
                }
                self.messages.push(record);
                let mut follow = copy_calls(&self.tool_follow);
                self.batch_follow.append(&mut follow);
                self.batch_pos = self.batch_pos + 1;
                proof {
                    assert(self.messages.deep_view() =~= old_messages.push(
                        tool_message(old(self).tool_content@, old(self).batch@[old(self).batch_pos as int].function.name@),
                    ));
                    assert(self.batch_follow.deep_view() =~= old_follow + added);
                }
                self.next_call()
            },
            AgentEvent::StepDelivered(Err(error)) => self.finish(Err(error)),
            _ => AgentAction::Finish(Err(AppError::EventEmit(String::new()))),
        }
    }

    fn on_await_limit_start(&mut self, event: AgentEvent) -> (action: AgentAction)
        requires
            wf(old(self).model()),
            accepts(old(self).model(), event.spec()),
            old(self).phase == Phase::AwaitLimitStart,
        ensures
            final(self).model() == step(old(self).model(), event.spec()).0,
            realizes(action, step(old(self).model(), event.spec()).1, final(self).model()),
    {
        match event {
            AgentEvent::StepDelivered(Ok(())) => {
                let (searches, pages) = research_coverage(&self.messages);
                let detail = research_limit_detail(self.total_calls, searches, pages);
                let a = self.close_step(AgentStepStatus::Completed, detail.as_str());
                self.phase = Phase::AwaitLimitComplete;
                a
            },
            AgentEvent::StepDelivered(Err(error)) => self.finish(Err(error)),
            _ => AgentAction::Finish(Err(AppError::EventEmit(String::new()))),
        }
    }

    fn on_await_limit_complete(&mut self, event: AgentEvent) -> (action: AgentAction)
        requires
            wf(old(self).model()),
            accepts(old(self).model(), event.spec()),
            old(self).phase == Phase::AwaitLimitComplete,
        ensures
            final(self).model() == step(old(self).model(), event.spec()).0,
            realizes(action, step(old(self).model(), event.spec()).1, final(self).model()),
    {
        match event {
            AgentEvent::StepDelivered(Ok(())) => self.begin_writing(),
            AgentEvent::StepDelivered(Err(error)) => self.finish(Err(error)),
            _ => AgentAction::Finish(Err(AppError::EventEmit(String::new()))),
        }
    }

    fn on_await_writing_start(&mut self, event: AgentEvent) -> (action: AgentAction)
        requires
            wf(old(self).model()),
            accepts(old(self).model(), event.spec()),
            old(self).phase == Phase::AwaitWritingStart,
        ensures
            final(self).model() == step(old(self).model(), event.spec()).0,
            realizes(action, step(old(self).model(), event.spec()).1, final(self).model()),
    {
        match event {
            AgentEvent::StepDelivered(Ok(())) => {
                let messages = copy_messages(&self.final_messages);
                let request = self.request.with_messages(messages, Some(true));
                self.phase = Phase::Streaming;
                AgentAction::StreamAnswer(request)
            },
            AgentEvent::StepDelivered(Err(error)) => self.finish(Err(error)),
            _ => AgentAction::Finish(Err(AppError::EventEmit(String::new()))),
        }
    }

    fn on_streaming(&mut self, event: AgentEvent) -> (action: AgentAction)
        requires
            wf(old(self).model()),
            accepts(old(self).model(), event.spec()),
            old(self).phase == Phase::Streaming,
        ensures
            final(self).model() == step(old(self).model(), event.spec()).0,
            realizes(action, step(old(self).model(), event.spec()).1, final(self).model()),
    {
        match event {
            AgentEvent::Streamed(Err(error)) => self.writing_failed(error),
            AgentEvent::Streamed(Ok(response)) => {
                if blank(response.message.content.as_str()) {
                    let messages = copy_messages(&self.final_messages);
                    let request = self.request.with_messages(messages, Some(false));
                    self.phase = Phase::Answering;
                    AgentAction::RequestAnswer(request)
                } else {
                    match validate_final_response(&response) {
                        Err(error) => self.writing_failed(error),
                        Ok(()) => {
                            let a = self.close_step(AgentStepStatus::Completed, WRITING_DONE_DETAIL);
                            self.answer = Some(response);
                            self.phase = Phase::AwaitWritingComplete;
                            a
                        },
                    }
                }
            },
            _ => AgentAction::Finish(Err(AppError::EventEmit(String::new()))),
        }
    }

    fn on_answering(&mut self, event: AgentEvent) -> (action: AgentAction)
        requires
            wf(old(self).model()),
            accepts(old(self).model(), event.spec()),
            old(self).phase == Phase::Answering,
        ensures
            final(self).model() == step(old(self).model(), event.spec()).0,
            realizes(action, step(old(self).model(), event.spec()).1, final(self).model()),
    {
        match event {
            AgentEvent::Answered(Err(error)) => self.writing_failed(error),
            AgentEvent::Answered(Ok(response)) => match validate_final_response(&response) {
                Err(error) => self.writing_failed(error),
                Ok(()) => {
                    let chunk = response.as_chunk();
                    self.answer = Some(response);
                    self.phase = Phase::AwaitChunk;
                    AgentAction::DeliverChunk(chunk)
                },
            },
            _ => AgentAction::Finish(Err(AppError::EventEmit(String::new()))),
        }
    }

    fn on_await_chunk(&mut self, event: AgentEvent) -> (action: AgentAction)
        requires
            wf(old(self).model()),
            accepts(old(self).model(), event.spec()),
            old(self).phase == Phase::AwaitChunk,
        ensures
            final(self).model() == step(old(self).model(), event.spec()).0,
            realizes(action, step(old(self).model(), event.spec()).1, final(self).model()),
    {
        match event {
            AgentEvent::ChunkDelivered(Ok(())) => {
                let a = self.close_step(AgentStepStatus::Completed, WRITING_DONE_DETAIL);
                self.phase = Phase::AwaitWritingComplete;
                a
            },
            AgentEvent::ChunkDelivered(Err(error)) => self.writing_failed(error),
            _ => AgentAction::Finish(Err(AppError::EventEmit(String::new()))),
        }
    }

    fn on_report_failure(&mut self, event: AgentEvent) -> (action: AgentAction)
        requires
            wf(old(self).model()),
            accepts(old(self).model(), event.spec()),
            old(self).phase == Phase::ReportFailure,
        ensures
            final(self).model() == step(old(self).model(), event.spec()).0,
            realizes(action, step(old(self).model(), event.spec()).1, final(self).model()),
    {
        {
            match &self.failure {
                Some(error) => {
                    let error = error.copy();
                    self.finish(Err(error))
                },
                None => AgentAction::Finish(Err(AppError::EventEmit(String::new()))),
            }
        }
    }

    fn on_await_writing_complete(&mut self, event: AgentEvent) -> (action: AgentAction)
        requires
            wf(old(self).model()),
            accepts(old(self).model(), event.spec()),
            old(self).phase == Phase::AwaitWritingComplete,
        ensures
            final(self).model() == step(old(self).model(), event.spec()).0,
            realizes(action, step(old(self).model(), event.spec()).1, final(self).model()),
    {
        match event {
            AgentEvent::StepDelivered(Ok(())) => {
                match &self.answer {
                    Some(response) => {
                        let response = response.copy();
                        self.finish(Ok(response))
                    },
                    None => AgentAction::Finish(Err(AppError::EventEmit(String::new()))),
                }
            },
            AgentEvent::StepDelivered(Err(error)) => self.finish(Err(error)),
            _ => AgentAction::Finish(Err(AppError::EventEmit(String::new()))),
        }
    }
}

/// Every state a run reaches is well-formed: from a well-formed state, an
/// event that the state accepts leads to a well-formed state.
/// An event that the run does not wait on changes nothing and ends the
/// exchange with a delivery error.
pub proof fn lemma_unaccepted_event(m: RunModel, e: EventSpec)
    requires
        !accepts(m, e),
    ensures
        step(m, e) == (m, ActionSpec::Finish(Err(ErrorModel::EventEmit(Seq::empty())))),
{
    match e {
        EventSpec::StepDelivered(_) => {},
        EventSpec::Planned(_) => {},
        EventSpec::Described(_, _) => {},
        EventSpec::Executed(_) => {},
        EventSpec::Streamed(_) => {},
        EventSpec::Answered(_) => {},
        EventSpec::ChunkDelivered(_) => {},
    }
}

pub proof fn lemma_step_wf(m: RunModel, e: EventSpec)
    requires
        wf(m),
        accepts(m, e),
    ensures
        wf(step(m, e).0),
{
}

/// The stage of a run: research, the limit step, the final answer, the end.
pub open spec fn stage(p: Phase) -> nat {
    if planning_phase(p) || tool_phase(p) {
        3
    } else if limit_phase(p) {
        2
    } else if writing_phase(p) {
        1
    } else {
        0
    }
}

/// The order of the phases within a stage (later phases rank lower).
pub open spec fn phase_rank(p: Phase) -> nat {
    match p {
        Phase::AwaitPlanStart => 9,
        Phase::Planning => 8,
        Phase::DescribePlan => 7,
        Phase::AwaitPlanComplete => 6,
        Phase::DescribeTool => 4,
        Phase::AwaitToolStart => 3,
        Phase::Executing => 2,
        Phase::AwaitToolEnd => 1,
        Phase::AwaitLimitStart => 2,
        Phase::AwaitLimitComplete => 1,
        Phase::AwaitWritingStart => 5,
        Phase::Streaming => 4,
        Phase::Answering => 3,
        Phase::AwaitChunk => 2,
        Phase::AwaitWritingComplete => 1,
        Phase::ReportFailure => 1,
        Phase::Finished => 0,
    }
}

/// Tool calls the research may still run.
pub open spec fn calls_left(m: RunModel) -> nat {
    if tool_phase(m.phase) {
        (MAX_TOOL_CALLS - (m.total_calls + m.turn_executed + m.batch_pos)) as nat
    } else if planning_phase(m.phase) {
        (MAX_TOOL_CALLS - m.total_calls) as nat
    } else {
        0
    }
}

/// Planning rounds the research may still start.
pub open spec fn rounds_left(m: RunModel) -> nat {
    if planning_phase(m.phase) || tool_phase(m.phase) {
        (MAX_TOOL_ROUNDS - m.round) as nat
    } else {
        0
    }
}

/// Tool calls of the planner's answer not yet described.
pub open spec fn descriptions_left(m: RunModel) -> nat {
    if m.phase == Phase::DescribePlan {
        (m.plan_message.tool_calls.len() - m.descriptions.len()) as nat
    } else {
        0
    }
}

/// How far a run is from its end.
pub open spec fn progress_measure(m: RunModel) -> (nat, nat, nat, nat, nat) {
    (stage(m.phase), rounds_left(m), calls_left(m), phase_rank(m.phase), descriptions_left(m))
}

/// Lexicographic order on the measure.
pub open spec fn measure_below(a: (nat, nat, nat, nat, nat), b: (nat, nat, nat, nat, nat)) -> bool {
    ||| a.0 < b.0
    ||| a.0 == b.0 && a.1 < b.1
    ||| a.0 == b.0 && a.1 == b.1 && a.2 < b.2
    ||| a.0 == b.0 && a.1 == b.1 && a.2 == b.2 && a.3 < b.3
    ||| a.0 == b.0 && a.1 == b.1 && a.2 == b.2 && a.3 == b.3 && a.4 < b.4
}

/// Every run finishes: each event moves the run strictly closer to its end in a
/// well-founded order, whatever the provider, the tools and the front end
/// answer, and a finished run accepts no event.
pub proof fn law_every_run_finishes(m: RunModel, e: EventSpec)
    requires
        wf(m),
        accepts(m, e),
    ensures
        measure_below(progress_measure(step(m, e).0), progress_measure(m)),
        m.phase != Phase::Finished,
{
}

/// No tool call starts once the run has used its tool-call budget: a call is
/// executed only while fewer than `MAX_TOOL_CALLS` calls have run, counting
/// the calls of earlier turns and of this turn.
pub proof fn law_tool_call_budget(m: RunModel, e: EventSpec)
    requires
        wf(m),
        accepts(m, e),
    ensures
        step(m, e).1 is Execute ==> m.total_calls + m.turn_executed + m.batch_pos
            < MAX_TOOL_CALLS,
        tool_phase(step(m, e).0.phase) ==> step(m, e).0.total_calls + step(m, e).0.turn_executed
            + step(m, e).0.batch_pos < MAX_TOOL_CALLS,
        wf(step(m, e).0),
        step(m, e).0.total_calls <= MAX_TOOL_CALLS,
{
}

/// The planner is asked at most `MAX_TOOL_ROUNDS` times: only in a round below
/// the limit, and every new round has a higher number.
pub proof fn law_planning_rounds(m: RunModel, e: EventSpec)
    requires
        wf(m),
        accepts(m, e),
    ensures
        step(m, e).1 is Plan ==> m.round < MAX_TOOL_ROUNDS && step(m, e).0.round == m.round,
        step(m, e).0.round >= m.round,
        step(m, e).0.phase == Phase::AwaitPlanStart ==> step(m, e).0.round < MAX_TOOL_ROUNDS,
{
}

/// The final answer is requested from the instructions for the answer, the
/// conversation as the user sent it, and one user message with the original
/// request and the gathered evidence.
pub proof fn law_final_answer_request(m: RunModel, e: EventSpec)
    requires
        wf(m),
        accepts(m, e),
    ensures
        step(m, e).1 matches ActionSpec::StreamAnswer(msgs) ==> msgs == final_messages(
            m.original_messages,
            m.messages,
            m.original_request,
        ),
        step(m, e).1 matches ActionSpec::RequestAnswer(msgs) ==> msgs == final_messages(
            m.original_messages,
            m.messages,
            m.original_request,
        ),
{
}

/// A run only ends with an answer that is an assistant message with content.
pub proof fn law_answers_are_checked(m: RunModel, e: EventSpec)
    requires
        wf(m),
        accepts(m, e),
        m.answer matches Some(r) ==> final_answer_problem(
            r.message.role,
            r.message.content,
            r.done_reason,
        ) is None,
    ensures
        step(m, e).1 matches ActionSpec::Finish(Ok(r)) ==> final_answer_problem(
            r.message.role,
            r.message.content,
            r.done_reason,
        ) is None,
        step(m, e).0.answer matches Some(r) ==> final_answer_problem(
            r.message.role,
            r.message.content,
            r.done_reason,
        ) is None,
{
}

/// Steps are numbered `step-1`, `step-2`, … in the order they open, and every
/// other event updates the step that is open.
pub proof fn law_step_numbering(m: RunModel, e: EventSpec)
    requires
        wf(m),
        accepts(m, e),
    ensures
        step(m, e).1 matches ActionSpec::Step(s) ==> (if s.status == AgentStepStatus::Running {
            s.id == step_id_text(m.next_step) && step(m, e).0.next_step == m.next_step + 1
                && step(m, e).0.step_id == s.id
        } else {
            s.id == m.step_id && step(m, e).0.next_step == m.next_step
        }),
        !(step(m, e).1 is Step) ==> step(m, e).0.next_step == m.next_step,
{
}

/// The final answer never sees tool messages or tool calls when the
/// conversation the user sent holds none.
pub proof fn law_final_messages_hold_no_tools(
    original: Seq<MessageModel>,
    agent: Seq<MessageModel>,
    request: Seq<char>,
)
    requires
        forall|i: int|
            0 <= i < original.len() ==> (#[trigger] original[i]).role != ChatRole::Tool
                && original[i].tool_calls.len() == 0,
    ensures
        forall|i: int|
            0 <= i < final_messages(original, agent, request).len() ==> (#[trigger] final_messages(
                original,
                agent,
                request,
            )[i]).role != ChatRole::Tool && final_messages(original, agent, request)[i].tool_calls.len()
                == 0,
        final_messages(original, agent, request)[0] == plain_message(
            ChatRole::System,
            FINAL_ANSWER_PROMPT@,
        ),
{
    let f = final_messages(original, agent, request);
    assert forall|i: int| 0 <= i < f.len() implies (#[trigger] f[i]).role != ChatRole::Tool
        && f[i].tool_calls.len() == 0 by {
        if 1 <= i <= original.len() {
            assert(f[i] == original[i - 1]);
        }
    }
}

} // verus!
