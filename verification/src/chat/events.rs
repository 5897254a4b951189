//! The shapes exchanged with the desktop front end about turns.
use vstd::prelude::*;

use crate::chat::authorizer::PermissionRequest;
use crate::chat::mapper::{arguments_of, call_id_of, tool_arguments_json, tool_call_id, tool_name, tool_name_of};
use crate::chat::plan::{plan_accepts, snapshot_from_output, snapshot_is, DesktopPlanSnapshot, PlanFieldsView};
use crate::primitives::{plan_output_of, read_plan_output};
use crate::chat::submission::PermissionDecision;
use crate::protocol::ToolCall;
use crate::text::owned;

verus! {

/// What a turn is addressed to.
#[derive(Debug, Clone, Copy, PartialEq, Eq, Structural)]
pub enum TurnTargetKind {
    Agent,
    Workflow,
}

/// A request to start a turn.
#[derive(Debug, Clone, PartialEq, Eq)]
pub struct StartTurnInput {
    pub prompt: String,
    pub target_kind: TurnTargetKind,
    pub target_id: String,
}

/// The answer to a started turn.
#[derive(Debug, Clone, PartialEq, Eq)]
pub struct StartTurnResult {
    pub turn_id: String,
}

/// How a stored turn ended, as shown to the user.
#[derive(Debug, Clone, Copy, PartialEq, Eq, Structural)]
pub enum HydratedChatTurnStatus {
    Completed,
    Cancelled,
    Failed,
}

/// The state of one tool call of a stored turn.
#[derive(Debug, Clone, Copy, PartialEq, Eq, Structural)]
pub enum HydratedToolCallStatus {
    Running,
    Success,
    Failed,
    TimedOut,
    Denied,
    Cancelled,
}

/// One tool call of a stored turn, as shown to the user.
#[derive(Debug, Clone, PartialEq, Eq)]
pub struct HydratedToolCall {
    pub call_id: String,
    pub name: String,
    pub arguments_json: String,
    pub output_summary: Option<String>,
    pub error_summary: Option<String>,
    pub status: HydratedToolCallStatus,
}

/// A stored turn, as shown to the user.
#[derive(Debug, Clone, PartialEq, Eq)]
pub struct HydratedChatTurn {
    pub turn_id: String,
    pub prompt: String,
    pub assistant_text: String,
    pub reasoning_text: String,
    pub status: HydratedChatTurnStatus,
    pub error: Option<String>,
    pub latest_plan: Option<DesktopPlanSnapshot>,
    pub tool_calls: Vec<HydratedToolCall>,
}

/// A request to start a new conversation with a first prompt.
#[derive(Debug, Clone, PartialEq, Eq)]
pub struct StartConversationInput {
    pub prompt: String,
    pub target_kind: TurnTargetKind,
    pub target_id: String,
}

/// A request to send a further prompt in a conversation.
#[derive(Debug, Clone, PartialEq, Eq)]
pub struct ContinueConversationInput {
    pub conversation_id: String,
    pub prompt: String,
}

/// Why a step of a turn ended.
#[derive(Debug, Clone, Copy, PartialEq, Eq, Structural)]
pub enum StepFinishReason {
    ToolCalls,
}

/// Why a turn ended.
#[derive(Debug, Clone, Copy, PartialEq, Eq, Structural)]
pub enum TurnFinishReason {
    Completed,
    Cancelled,
    Failed,
    MaxStepsExceeded,
    ModelLengthLimit,
    ModelProtocolError,
    LlmTimeout,
}

/// How a tool call ended. A success carries its output as JSON text.
#[derive(Debug, Clone, PartialEq, Eq)]
pub enum ToolOutcome {
    Success { output_json: String },
    Failed { message: String, retryable: bool },
    TimedOut,
    Denied,
    Cancelled,
}

/// What happened in a running turn.
#[derive(Debug, Clone, PartialEq, Eq)]
pub enum TurnEvent {
    TurnStarted,
    LlmTextDelta { text: String },
    LlmReasoningDelta { text: String },
    ToolCallPrepared { call: ToolCall },
    ToolCallCompleted { call_id: String, result: ToolOutcome },
    ToolCallPermissionRequested { request: PermissionRequest },
    ToolCallPermissionResolved { request_id: String, decision: PermissionDecision },
    StepFinished { step_index: u32, reason: StepFinishReason },
    TurnFinished { reason: TurnFinishReason },
}

/// A tool outcome as the front end sees it: its status, and the output,
/// message and retry flag where the outcome has them.
#[derive(Debug, Clone, PartialEq, Eq)]
pub struct ToolOutcomeValue {
    pub status: String,
    pub output_json: Option<String>,
    pub message: Option<String>,
    pub retryable: Option<bool>,
}

/// The payload of an event for the front end.
#[derive(Debug, Clone, PartialEq, Eq)]
pub enum TurnEventData {
    Empty,
    Text { text: String },
    ToolCallPrepared { call_id: String, name: String, arguments_json: String },
    ToolCallCompleted { call_id: String, result: ToolOutcomeValue },
    PermissionRequested { request_id: String, tool_call_id: String },
    PermissionResolved { request_id: String, decision: String },
    StepFinished { step_index: u32, reason: String },
    TurnFinished { reason: String },
    PlanUpdated { plan: DesktopPlanSnapshot },
}

/// An event of a turn for the front end: the turn, the event's type and
/// its payload.
#[derive(Debug, Clone, PartialEq, Eq)]
pub struct DesktopTurnEvent {
    pub turn_id: String,
    pub event_type: String,
    pub data: TurnEventData,
}

/// The wire name of a step's end.
pub open spec fn step_finish_name(r: StepFinishReason) -> Seq<char> {
    match r {
        StepFinishReason::ToolCalls => "tool_calls"@,
    }
}

/// The wire name of a turn's end.
pub open spec fn turn_finish_name(r: TurnFinishReason) -> Seq<char> {
    match r {
        TurnFinishReason::Completed => "completed"@,
        TurnFinishReason::Cancelled => "cancelled"@,
        TurnFinishReason::Failed => "failed"@,
        TurnFinishReason::MaxStepsExceeded => "max_steps_exceeded"@,
        TurnFinishReason::ModelLengthLimit => "model_length_limit"@,
        TurnFinishReason::ModelProtocolError => "model_protocol_error"@,
        TurnFinishReason::LlmTimeout => "llm_timeout"@,
    }
}

/// The wire name of a permission decision.
pub open spec fn decision_name(d: PermissionDecision) -> Seq<char> {
    match d {
        PermissionDecision::Allow => "allow"@,
        PermissionDecision::Deny => "deny"@,
    }
}

/// The wire name of a step's end.
pub fn step_finish_reason(reason: &StepFinishReason) -> (r: &'static str)
    ensures
        r@ == step_finish_name(*reason),
{
    match reason {
        StepFinishReason::ToolCalls => "tool_calls",
    }
}

/// The wire name of a turn's end.
pub fn turn_finish_reason(reason: &TurnFinishReason) -> (r: &'static str)
    ensures
        r@ == turn_finish_name(*reason),
{
    match reason {
        TurnFinishReason::Completed => "completed",
        TurnFinishReason::Cancelled => "cancelled",
        TurnFinishReason::Failed => "failed",
        TurnFinishReason::MaxStepsExceeded => "max_steps_exceeded",
        TurnFinishReason::ModelLengthLimit => "model_length_limit",
        TurnFinishReason::ModelProtocolError => "model_protocol_error",
        TurnFinishReason::LlmTimeout => "llm_timeout",
    }
}

/// Whether `v` is how the front end sees outcome `o`.
pub open spec fn outcome_value_is(o: ToolOutcome, v: ToolOutcomeValue) -> bool {
    match o {
        ToolOutcome::Success { output_json, .. } => v.status@ == "success"@ && (v.output_json matches Some(
            t,
        ) && t@ == output_json@) && v.message is None && v.retryable is None,
        ToolOutcome::Failed { message, retryable } => v.status@ == "failed"@ && v.output_json is None && (
        v.message matches Some(m) && m@ == message@) && v.retryable == Some(retryable),
        ToolOutcome::TimedOut => v.status@ == "timed_out"@ && v.output_json is None && v.message is None
            && v.retryable is None,
        ToolOutcome::Denied => v.status@ == "denied"@ && v.output_json is None && v.message is None
            && v.retryable is None,
        ToolOutcome::Cancelled => v.status@ == "cancelled"@ && v.output_json is None && v.message is None
            && v.retryable is None,
    }
}

/// The status the front end sees for each tool outcome: "success",
/// "failed", "timed_out", "denied" and "cancelled". Distinct kinds of outcome
/// get distinct statuses, so the front end can tell them apart.
pub proof fn lemma_outcome_statuses_are_distinct(
    o1: ToolOutcome,
    v1: ToolOutcomeValue,
    o2: ToolOutcome,
    v2: ToolOutcomeValue,
)
    requires
        outcome_value_is(o1, v1),
        outcome_value_is(o2, v2),
    ensures
        o1 is Success ==> v1.status@ == "success"@,
        o1 is Failed ==> v1.status@ == "failed"@,
        o1 is TimedOut ==> v1.status@ == "timed_out"@,
        o1 is Denied ==> v1.status@ == "denied"@,
        o1 is Cancelled ==> v1.status@ == "cancelled"@,
        v1.status@ == v2.status@ ==> {
            &&& (o1 is Success <==> o2 is Success)
            &&& (o1 is Failed <==> o2 is Failed)
            &&& (o1 is TimedOut <==> o2 is TimedOut)
            &&& (o1 is Denied <==> o2 is Denied)
            &&& (o1 is Cancelled <==> o2 is Cancelled)
        },
{
    reveal_strlit("success");
    reveal_strlit("failed");
    reveal_strlit("timed_out");
    reveal_strlit("denied");
    reveal_strlit("cancelled");
    assert("success"@[0] == 's' && "failed"@[0] == 'f' && "timed_out"@[0] == 't' && "denied"@[0] == 'd'
        && "cancelled"@[0] == 'c');
}

/// Distinct kinds of turn event reach the front end under distinct event
/// types, distinct ends of a turn under distinct names, and the two
/// permission decisions under distinct names.
pub proof fn lemma_event_names_are_distinct(
    e1: TurnEvent,
    e2: TurnEvent,
    r1: TurnFinishReason,
    r2: TurnFinishReason,
)
    ensures
        event_type_of(e1) == event_type_of(e2) ==> {
            &&& (e1 is TurnStarted <==> e2 is TurnStarted)
            &&& (e1 is LlmTextDelta <==> e2 is LlmTextDelta)
            &&& (e1 is LlmReasoningDelta <==> e2 is LlmReasoningDelta)
            &&& (e1 is ToolCallPrepared <==> e2 is ToolCallPrepared)
            &&& (e1 is ToolCallCompleted <==> e2 is ToolCallCompleted)
            &&& (e1 is ToolCallPermissionRequested <==> e2 is ToolCallPermissionRequested)
            &&& (e1 is ToolCallPermissionResolved <==> e2 is ToolCallPermissionResolved)
            &&& (e1 is StepFinished <==> e2 is StepFinished)
            &&& (e1 is TurnFinished <==> e2 is TurnFinished)
        },
        turn_finish_name(r1) == turn_finish_name(r2) ==> r1 == r2,
        decision_name(PermissionDecision::Allow) != decision_name(PermissionDecision::Deny),
{
    reveal_strlit("turn-started");
    reveal_strlit("llm-text-delta");
    reveal_strlit("llm-reasoning-delta");
    reveal_strlit("tool-call-prepared");
    reveal_strlit("tool-call-completed");
    reveal_strlit("tool-call-permission-requested");
    reveal_strlit("tool-call-permission-resolved");
    reveal_strlit("step-finished");
    reveal_strlit("turn-finished");
    assert("turn-started"@.len() == 12 && "turn-started"@[0] == 't' && "turn-started"@[1] == 'u' && "turn-started"@[11] == 'd');
    assert("llm-text-delta"@.len() == 14 && "llm-text-delta"@[0] == 'l' && "llm-text-delta"@[1] == 'l' && "llm-text-delta"@[13] == 'a');
    assert("llm-reasoning-delta"@.len() == 19 && "llm-reasoning-delta"@[0] == 'l' && "llm-reasoning-delta"@[1] == 'l' && "llm-reasoning-delta"@[18] == 'a');
    assert("tool-call-prepared"@.len() == 18 && "tool-call-prepared"@[0] == 't' && "tool-call-prepared"@[1] == 'o' && "tool-call-prepared"@[17] == 'd');
    assert("tool-call-completed"@.len() == 19 && "tool-call-completed"@[0] == 't' && "tool-call-completed"@[1] == 'o' && "tool-call-completed"@[18] == 'd');
    assert("tool-call-permission-requested"@.len() == 30 && "tool-call-permission-requested"@[0] == 't' && "tool-call-permission-requested"@[1] == 'o' && "tool-call-permission-requested"@[29] == 'd');
    assert("tool-call-permission-resolved"@.len() == 29 && "tool-call-permission-resolved"@[0] == 't' && "tool-call-permission-resolved"@[1] == 'o' && "tool-call-permission-resolved"@[28] == 'd');
    assert("step-finished"@.len() == 13 && "step-finished"@[0] == 's' && "step-finished"@[1] == 't' && "step-finished"@[12] == 'd');
    assert("turn-finished"@.len() == 13 && "turn-finished"@[0] == 't' && "turn-finished"@[1] == 'u' && "turn-finished"@[12] == 'd');
    reveal_strlit("completed");
    reveal_strlit("cancelled");
    reveal_strlit("failed");
    reveal_strlit("max_steps_exceeded");
    reveal_strlit("model_length_limit");
    reveal_strlit("model_protocol_error");
    reveal_strlit("llm_timeout");
    assert("completed"@.len() == 9 && "completed"@[0] == 'c' && "completed"@[1] == 'o' && "completed"@[8] == 'd');
    assert("cancelled"@.len() == 9 && "cancelled"@[0] == 'c' && "cancelled"@[1] == 'a' && "cancelled"@[8] == 'd');
    assert("failed"@.len() == 6 && "failed"@[0] == 'f' && "failed"@[1] == 'a' && "failed"@[5] == 'd');
    assert("max_steps_exceeded"@.len() == 18 && "max_steps_exceeded"@[0] == 'm' && "max_steps_exceeded"@[1] == 'a' && "max_steps_exceeded"@[17] == 'd');
    assert("model_length_limit"@.len() == 18 && "model_length_limit"@[0] == 'm' && "model_length_limit"@[1] == 'o' && "model_length_limit"@[17] == 't');
    assert("model_protocol_error"@.len() == 20 && "model_protocol_error"@[0] == 'm' && "model_protocol_error"@[1] == 'o' && "model_protocol_error"@[19] == 'r');
    assert("llm_timeout"@.len() == 11 && "llm_timeout"@[0] == 'l' && "llm_timeout"@[1] == 'l' && "llm_timeout"@[10] == 't');
    reveal_strlit("allow");
    reveal_strlit("deny");
    assert("allow"@.len() == 5 && "allow"@[0] == 'a' && "allow"@[1] == 'l' && "allow"@[4] == 'w');
    assert("deny"@.len() == 4 && "deny"@[0] == 'd' && "deny"@[1] == 'e' && "deny"@[3] == 'y');
}

/// How the front end sees a tool outcome.
pub fn tool_outcome_value(outcome: &ToolOutcome) -> (r: ToolOutcomeValue)
    ensures
        outcome_value_is(*outcome, r),
{
    match outcome {
        ToolOutcome::Success { output_json, .. } => ToolOutcomeValue {
            status: owned("success"),
            output_json: Some(owned(output_json.as_str())),
            message: None,
            retryable: None,
        },
        ToolOutcome::Failed { message, retryable } => ToolOutcomeValue {
            status: owned("failed"),
            output_json: None,
            message: Some(owned(message.as_str())),
            retryable: Some(*retryable),
        },
        ToolOutcome::TimedOut => ToolOutcomeValue {
            status: owned("timed_out"),
            output_json: None,
            message: None,
            retryable: None,
        },
        ToolOutcome::Denied => ToolOutcomeValue {
            status: owned("denied"),
            output_json: None,
            message: None,
            retryable: None,
        },
        ToolOutcome::Cancelled => ToolOutcomeValue {
            status: owned("cancelled"),
            output_json: None,
            message: None,
            retryable: None,
        },
    }
}

/// The wire type of an event.
pub open spec fn event_type_of(e: TurnEvent) -> Seq<char> {
    match e {
        TurnEvent::TurnStarted => "turn-started"@,
        TurnEvent::LlmTextDelta { .. } => "llm-text-delta"@,
        TurnEvent::LlmReasoningDelta { .. } => "llm-reasoning-delta"@,
        TurnEvent::ToolCallPrepared { .. } => "tool-call-prepared"@,
        TurnEvent::ToolCallCompleted { .. } => "tool-call-completed"@,
        TurnEvent::ToolCallPermissionRequested { .. } => "tool-call-permission-requested"@,
        TurnEvent::ToolCallPermissionResolved { .. } => "tool-call-permission-resolved"@,
        TurnEvent::StepFinished { .. } => "step-finished"@,
        TurnEvent::TurnFinished { .. } => "turn-finished"@,
    }
}

/// Whether `d` is the payload of event `e` for the front end.
pub open spec fn data_is(e: TurnEvent, d: TurnEventData) -> bool {
    match e {
        TurnEvent::TurnStarted => d is Empty,
        TurnEvent::LlmTextDelta { text } => d matches TurnEventData::Text { text: t } && t@ == text@,
        TurnEvent::LlmReasoningDelta { text } => d matches TurnEventData::Text { text: t } && t@ == text@,
        TurnEvent::ToolCallPrepared { call } => d matches TurnEventData::ToolCallPrepared {
            call_id,
            name,
            arguments_json,
        } && call_id@ == call_id_of(call) && name@ == tool_name_of(call) && arguments_json@
            == arguments_of(call),
        TurnEvent::ToolCallCompleted { call_id, result } => d matches TurnEventData::ToolCallCompleted {
            call_id: c,
            result: v,
        } && c@ == call_id@ && outcome_value_is(result, v),
        TurnEvent::ToolCallPermissionRequested { request } => d matches TurnEventData::PermissionRequested {
            request_id,
            tool_call_id,
        } && request_id@ == request.request_id@ && tool_call_id@ == request.tool_call_id@,
        TurnEvent::ToolCallPermissionResolved { request_id, decision } => d matches TurnEventData::PermissionResolved {
            request_id: r,
            decision: n,
        } && r@ == request_id@ && n@ == decision_name(decision),
        TurnEvent::StepFinished { step_index, reason } => d matches TurnEventData::StepFinished {
            step_index: i,
            reason: n,
        } && i == step_index && n@ == step_finish_name(reason),
        TurnEvent::TurnFinished { reason } => d matches TurnEventData::TurnFinished { reason: n } && n@
            == turn_finish_name(reason),
    }
}

/// Whether `ev` is event `e` of turn `turn_id` as the front end sees it.
pub open spec fn is_turn_event(turn_id: Seq<char>, e: TurnEvent, ev: DesktopTurnEvent) -> bool {
    &&& ev.turn_id@ == turn_id
    &&& ev.event_type@ == event_type_of(e)
    &&& data_is(e, ev.data)
}

/// The front end's view of a turn event. Every event has one.
pub fn map_turn_event(turn_id: &str, event: &TurnEvent) -> (r: Option<DesktopTurnEvent>)
    ensures
        r matches Some(ev) && is_turn_event(turn_id@, *event, ev),
{
    let (event_type, data) = match event {
        TurnEvent::TurnStarted => (owned("turn-started"), TurnEventData::Empty),
        TurnEvent::LlmTextDelta { text } => (
            owned("llm-text-delta"),
            TurnEventData::Text { text: owned(text.as_str()) },
        ),
        TurnEvent::LlmReasoningDelta { text } => (
            owned("llm-reasoning-delta"),
            TurnEventData::Text { text: owned(text.as_str()) },
        ),
        TurnEvent::ToolCallPrepared { call } => (
            owned("tool-call-prepared"),
            TurnEventData::ToolCallPrepared {
                call_id: owned(tool_call_id(call)),
                name: owned(tool_name(call)),
                arguments_json: owned(tool_arguments_json(call)),
            },
        ),
        TurnEvent::ToolCallCompleted { call_id, result } => (
            owned("tool-call-completed"),
            TurnEventData::ToolCallCompleted {
                call_id: owned(call_id.as_str()),
                result: tool_outcome_value(result),
            },
        ),
        TurnEvent::ToolCallPermissionRequested { request } => (
            owned("tool-call-permission-requested"),
            TurnEventData::PermissionRequested {
                request_id: owned(request.request_id.as_str()),
                tool_call_id: owned(request.tool_call_id.as_str()),
            },
        ),
        TurnEvent::ToolCallPermissionResolved { request_id, decision } => (
            owned("tool-call-permission-resolved"),
            TurnEventData::PermissionResolved {
                request_id: owned(request_id.as_str()),
                decision: owned(
                    match decision {
                        PermissionDecision::Allow => "allow",
                        PermissionDecision::Deny => "deny",
                    },
                ),
            },
        ),
        TurnEvent::StepFinished { step_index, reason } => (
            owned("step-finished"),
            TurnEventData::StepFinished {
                step_index: *step_index,
                reason: owned(step_finish_reason(reason)),
            },
        ),
        TurnEvent::TurnFinished { reason } => (
            owned("turn-finished"),
            TurnEventData::TurnFinished { reason: owned(turn_finish_reason(reason)) },
        ),
    };
    Some(DesktopTurnEvent { turn_id: owned(turn_id), event_type, data })
}

/// The plan a tool outcome reports: the fields of the `plan` object of a
/// success's output, where that output is JSON holding one.
pub open spec fn outcome_plan(o: ToolOutcome) -> Option<PlanFieldsView> {
    match o {
        ToolOutcome::Success { output_json } => match plan_output_of(output_json@) {
            Some(Some(p)) => Some(p),
            _ => None,
        },
        _ => None,
    }
}

/// The plan snapshot a tool outcome reports: only a success whose output
/// holds an acceptable plan has one.
pub fn snapshot_from_tool_outcome(call_id: &str, outcome: &ToolOutcome) -> (r: Option<DesktopPlanSnapshot>)
    ensures
        r is Some <==> (outcome_plan(*outcome) matches Some(p) && plan_accepts(p)),
        r matches Some(s) ==> snapshot_is(call_id@, outcome_plan(*outcome)->0, s),
{
    match outcome {
        ToolOutcome::Success { output_json } => match read_plan_output(output_json.as_str()) {
            Some(Some(p)) => snapshot_from_output(call_id, &p),
            _ => None,
        },
        ToolOutcome::Failed { .. } => None,
        ToolOutcome::TimedOut => None,
        ToolOutcome::Denied => None,
        ToolOutcome::Cancelled => None,
    }
}

/// Whether `ev` is the plan-updated event of turn `turn_id` for the plan
/// that call `call_id` reported in `result`.
pub open spec fn is_plan_event(turn_id: Seq<char>, call_id: Seq<char>, result: ToolOutcome, ev: DesktopTurnEvent) -> bool {
    &&& ev.turn_id@ == turn_id
    &&& ev.event_type@ == "plan-updated"@
    &&& ev.data matches TurnEventData::PlanUpdated { plan } && snapshot_is(call_id, outcome_plan(result)->0, plan)
}

/// The plan-updated event for a tool outcome that reports an acceptable plan.
pub fn plan_updated_event(turn_id: &str, call_id: &str, result: &ToolOutcome) -> (r: Option<DesktopTurnEvent>)
    ensures
        r is Some <==> (outcome_plan(*result) matches Some(p) && plan_accepts(p)),
        r matches Some(ev) ==> is_plan_event(turn_id@, call_id@, *result, ev),
{
    match snapshot_from_tool_outcome(call_id, result) {
        Some(plan) => Some(
            DesktopTurnEvent {
                turn_id: owned(turn_id),
                event_type: owned("plan-updated"),
                data: TurnEventData::PlanUpdated { plan },
            },
        ),
        None => None,
    }
}

} // verus!
