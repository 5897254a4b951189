//! The turn events a conversation's turn observer hands to the desktop: each
//! event of a running turn, tagged with its conversation and turn, in the
//! observer's own vocabulary (approvals rather than permissions, and a
//! tool outcome split into its status, output and error).
use vstd::prelude::*;

use crate::chat::events::{decision_name, turn_finish_name, turn_finish_reason, StepFinishReason,
    ToolOutcome, TurnEvent};
use crate::chat::mapper::{call_id_of, tool_call_id, tool_name, tool_name_of};
use crate::chat::submission::PermissionDecision;
use crate::protocol::ToolCall;
use crate::text::owned;

verus! {

/// The error of a tool outcome that is not a success: its message, and
/// whether a retry may help where the tool said so.
#[derive(Debug, Clone, PartialEq, Eq)]
pub struct ObservedToolError {
    pub message: String,
    pub retryable: Option<bool>,
}

/// The payload of an observed event.
#[derive(Debug, Clone, PartialEq, Eq)]
pub enum ObservedEventData {
    Empty,
    Text { text: String },
    ToolCallPrepared { call_id: String, name: String, arguments_json: Option<String> },
    ToolCallCompleted {
        call_id: String,
        status: String,
        output_json: Option<String>,
        error: Option<ObservedToolError>,
    },
    ApprovalRequested { request_id: String, tool_call_id: String },
    ApprovalResolved { request_id: String, decision: String },
    StepFinished { step_index: u32, reason: String },
    TurnFinished { reason: String },
}

/// An event of a conversation's turn as the observer hands it on: the
/// conversation, the turn, the event's type and its payload.
#[derive(Debug, Clone, PartialEq, Eq)]
pub struct ObservedTurnEvent {
    pub conversation_id: String,
    pub turn_id: String,
    pub event_type: String,
    pub data: ObservedEventData,
}

/// The arguments of a call as the observer reports them: none for an MCP
/// call without arguments.
pub open spec fn observed_arguments_of(call: ToolCall) -> Option<Seq<char>> {
    match call {
        ToolCall::FunctionCall { arguments_json, .. } => Some(arguments_json@),
        ToolCall::Builtin(c) => Some(c.arguments_json@),
        ToolCall::Mcp(c) => match c.arguments_json {
            Some(a) => Some(a@),
            None => None,
        },
    }
}

/// The status name of a tool outcome as the observer reports it.
pub open spec fn observed_status_name(o: ToolOutcome) -> Seq<char> {
    match o {
        ToolOutcome::Success { .. } => "success"@,
        ToolOutcome::Failed { .. } => "error"@,
        ToolOutcome::TimedOut => "timed_out"@,
        ToolOutcome::Denied => "denied"@,
        ToolOutcome::Cancelled => "cancelled"@,
    }
}

/// Whether `e` is the error the observer reports for outcome `o`: none for
/// a success, the tool's message and retry flag for a failure, and a fixed
/// message for the other outcomes.
pub open spec fn observed_error_is(o: ToolOutcome, e: Option<ObservedToolError>) -> bool {
    match o {
        ToolOutcome::Success { .. } => e is None,
        ToolOutcome::Failed { message, retryable } => e matches Some(x) && x.message@ == message@
            && x.retryable == Some(retryable),
        ToolOutcome::TimedOut => e matches Some(x) && x.message@ == "tool execution timed out"@
            && x.retryable is None,
        ToolOutcome::Denied => e matches Some(x) && x.message@ == "tool execution was denied"@
            && x.retryable is None,
        ToolOutcome::Cancelled => e matches Some(x) && x.message@ == "tool execution was cancelled"@
            && x.retryable is None,
    }
}

/// The output the observer reports for outcome `o`: a success's output.
pub open spec fn observed_output_of(o: ToolOutcome) -> Option<Seq<char>> {
    match o {
        ToolOutcome::Success { output_json } => Some(output_json@),
        _ => None,
    }
}

/// The name a step's end has in the observer's events: the variant's name.
pub open spec fn step_reason_name(r: StepFinishReason) -> Seq<char> {
    match r {
        StepFinishReason::ToolCalls => "ToolCalls"@,
    }
}

/// The type of an observed event.
pub open spec fn observed_event_type(e: TurnEvent) -> Seq<char> {
    match e {
        TurnEvent::TurnStarted => "turn-started"@,
        TurnEvent::LlmTextDelta { .. } => "llm-text-delta"@,
        TurnEvent::LlmReasoningDelta { .. } => "llm-reasoning-delta"@,
        TurnEvent::ToolCallPrepared { .. } => "tool-call-prepared"@,
        TurnEvent::ToolCallCompleted { .. } => "tool-call-completed"@,
        TurnEvent::ToolCallPermissionRequested { .. } => "tool-approval-requested"@,
        TurnEvent::ToolCallPermissionResolved { .. } => "tool-approval-resolved"@,
        TurnEvent::StepFinished { .. } => "step-finished"@,
        TurnEvent::TurnFinished { .. } => "turn-finished"@,
    }
}

/// The view of an optional string.
pub open spec fn opt_chars(o: Option<String>) -> Option<Seq<char>> {
    match o {
        Some(s) => Some(s@),
        None => None,
    }
}

/// Whether `d` is the payload of event `e` as the observer reports it.
pub open spec fn observed_data_is(e: TurnEvent, d: ObservedEventData) -> bool {
    match e {
        TurnEvent::TurnStarted => d is Empty,
        TurnEvent::LlmTextDelta { text } => d matches ObservedEventData::Text { text: t } && t@ == text@,
        TurnEvent::LlmReasoningDelta { text } => d matches ObservedEventData::Text { text: t } && t@
            == text@,
        TurnEvent::ToolCallPrepared { call } => d matches ObservedEventData::ToolCallPrepared {
            call_id,
            name,
            arguments_json,
        } && call_id@ == call_id_of(call) && name@ == tool_name_of(call) && opt_chars(arguments_json)
            == observed_arguments_of(call),
        TurnEvent::ToolCallCompleted { call_id, result } => d matches ObservedEventData::ToolCallCompleted {
            call_id: c,
            status,
            output_json,
            error,
        } && c@ == call_id@ && status@ == observed_status_name(result) && opt_chars(output_json)
            == observed_output_of(result) && observed_error_is(result, error),
        TurnEvent::ToolCallPermissionRequested { request } => d matches ObservedEventData::ApprovalRequested {
            request_id,
            tool_call_id,
        } && request_id@ == request.request_id@ && tool_call_id@ == request.tool_call_id@,
        TurnEvent::ToolCallPermissionResolved { request_id, decision } => d matches ObservedEventData::ApprovalResolved {
            request_id: r,
            decision: n,
        } && r@ == request_id@ && n@ == decision_name(decision),
        TurnEvent::StepFinished { step_index, reason } => d matches ObservedEventData::StepFinished {
            step_index: i,
            reason: n,
        } && i == step_index && n@ == step_reason_name(reason),
        TurnEvent::TurnFinished { reason } => d matches ObservedEventData::TurnFinished { reason: n } && n@
            == turn_finish_name(reason),
    }
}

/// The observer reports each kind of tool outcome under its own status
/// ("success", "error", "timed_out", "denied", "cancelled"), a success with
/// its output and no error, and every other outcome with an error and no
/// output.
pub proof fn lemma_observed_statuses_are_distinct(o1: ToolOutcome, o2: ToolOutcome)
    ensures
        o1 is Success ==> observed_status_name(o1) == "success"@,
        o1 is Failed ==> observed_status_name(o1) == "error"@,
        o1 is TimedOut ==> observed_status_name(o1) == "timed_out"@,
        o1 is Denied ==> observed_status_name(o1) == "denied"@,
        o1 is Cancelled ==> observed_status_name(o1) == "cancelled"@,
        observed_status_name(o1) == observed_status_name(o2) ==> {
            &&& (o1 is Success <==> o2 is Success)
            &&& (o1 is Failed <==> o2 is Failed)
            &&& (o1 is TimedOut <==> o2 is TimedOut)
            &&& (o1 is Denied <==> o2 is Denied)
            &&& (o1 is Cancelled <==> o2 is Cancelled)
        },
        o1 is Success <==> observed_output_of(o1) is Some,
        forall|e: Option<ObservedToolError>| observed_error_is(o1, e) ==> (e is None <==> o1 is Success),
{
    reveal_strlit("success");
    reveal_strlit("error");
    reveal_strlit("timed_out");
    reveal_strlit("denied");
    reveal_strlit("cancelled");
    assert("success"@.len() == 7 && "success"@[0] == 's');
    assert("error"@.len() == 5 && "error"@[0] == 'e');
    assert("timed_out"@.len() == 9 && "timed_out"@[0] == 't');
    assert("denied"@.len() == 6 && "denied"@[0] == 'd');
    assert("cancelled"@.len() == 9 && "cancelled"@[0] == 'c');
}

/// The arguments of a call as the observer reports them.
fn observed_arguments(call: &ToolCall) -> (r: Option<String>)
    ensures
        opt_chars(r) == observed_arguments_of(*call),
{
    match call {
        ToolCall::FunctionCall { arguments_json, .. } => Some(owned(arguments_json.as_str())),
        ToolCall::Builtin(c) => Some(owned(c.arguments_json.as_str())),
        ToolCall::Mcp(c) => match &c.arguments_json {
            Some(a) => Some(owned(a.as_str())),
            None => None,
        },
    }
}

/// The payload of a tool outcome as the observer reports it.
fn observed_outcome(call_id: &str, result: &ToolOutcome) -> (r: ObservedEventData)
    ensures
        r matches ObservedEventData::ToolCallCompleted { call_id: c, status, output_json, error } && c@
            == call_id@ && status@ == observed_status_name(*result) && opt_chars(output_json)
            == observed_output_of(*result) && observed_error_is(*result, error),
{
    let fixed = |m: &str| -> (e: Option<ObservedToolError>)
        ensures
            e matches Some(x) && x.message@ == m@ && x.retryable is None,
        { Some(ObservedToolError { message: owned(m), retryable: None }) };
    let (status, output_json, error) = match result {
        ToolOutcome::Success { output_json } => (owned("success"), Some(owned(output_json.as_str())), None),
        ToolOutcome::Failed { message, retryable } => (
            owned("error"),
            None,
            Some(ObservedToolError { message: owned(message.as_str()), retryable: Some(*retryable) }),
        ),
        ToolOutcome::TimedOut => (owned("timed_out"), None, fixed("tool execution timed out")),
        ToolOutcome::Denied => (owned("denied"), None, fixed("tool execution was denied")),
        ToolOutcome::Cancelled => (owned("cancelled"), None, fixed("tool execution was cancelled")),
    };
    ObservedEventData::ToolCallCompleted { call_id: owned(call_id), status, output_json, error }
}

/// The observed event of conversation `conversation_id`'s turn `turn_id`
/// for a turn event. Every event has one.
pub fn map_turn_event(conversation_id: &str, turn_id: &str, event: &TurnEvent) -> (r: Option<
    ObservedTurnEvent,
>)
    ensures
        r matches Some(ev) && ev.conversation_id@ == conversation_id@ && ev.turn_id@ == turn_id@
            && ev.event_type@ == observed_event_type(*event) && observed_data_is(*event, ev.data),
{
    let (event_type, data) = match event {
        TurnEvent::TurnStarted => (owned("turn-started"), ObservedEventData::Empty),
        TurnEvent::LlmTextDelta { text } => (
            owned("llm-text-delta"),
            ObservedEventData::Text { text: owned(text.as_str()) },
        ),
        TurnEvent::LlmReasoningDelta { text } => (
            owned("llm-reasoning-delta"),
            ObservedEventData::Text { text: owned(text.as_str()) },
        ),
        TurnEvent::ToolCallPrepared { call } => (
            owned("tool-call-prepared"),
            ObservedEventData::ToolCallPrepared {
                call_id: owned(tool_call_id(call)),
                name: owned(tool_name(call)),
                arguments_json: observed_arguments(call),
            },
        ),
        TurnEvent::ToolCallCompleted { call_id, result } => (
            owned("tool-call-completed"),
            observed_outcome(call_id.as_str(), result),
        ),
        TurnEvent::ToolCallPermissionRequested { request } => (
            owned("tool-approval-requested"),
            ObservedEventData::ApprovalRequested {
                request_id: owned(request.request_id.as_str()),
                tool_call_id: owned(request.tool_call_id.as_str()),
            },
        ),
        TurnEvent::ToolCallPermissionResolved { request_id, decision } => (
            owned("tool-approval-resolved"),
            ObservedEventData::ApprovalResolved {
                request_id: owned(request_id.as_str()),
                decision: owned(
                    match decision {
                        PermissionDecision::Allow => "allow",
                        PermissionDecision::Deny => "deny",
                    },
                ),
            },
        ),
        TurnEvent::StepFinished { step_index, reason } => (
            owned("step-finished"),
            ObservedEventData::StepFinished {
                step_index: *step_index,
                reason: owned(
                    match reason {
                        StepFinishReason::ToolCalls => "ToolCalls",
                    },
                ),
            },
        ),
        TurnEvent::TurnFinished { reason } => (
            owned("turn-finished"),
            ObservedEventData::TurnFinished { reason: owned(turn_finish_reason(reason)) },
        ),
    };
    Some(
        ObservedTurnEvent {
            conversation_id: owned(conversation_id),
            turn_id: owned(turn_id),
            event_type,
            data,
        },
    )
}

} // verus!
