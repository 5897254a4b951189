//! The events of chat sessions as the desktop forwards them: what happened
//! to a thread, or in one of its turns, with the event's kind and payload.
use vstd::prelude::*;

use crate::chat::events::{
    decision_name, ToolOutcome, TurnEvent, TurnFinishReason, StepFinishReason,
};
use crate::chat::mapper::{call_id_of, tool_call_id, tool_name, tool_name_of};
use crate::chat::submission::PermissionDecision;
use crate::text::owned;

verus! {

/// What happened to a thread.
#[derive(Debug, Clone, Copy, PartialEq, Eq, Structural)]
pub enum ThreadEvent {
    ThreadCreated,
    ThreadActivated,
    ThreadUpdated,
    ThreadArchived,
    TurnEventForwarded,
}

/// An event of a session: one of a thread, or one of a turn of a thread.
#[derive(Debug, Clone, PartialEq, Eq)]
pub enum SessionEvent {
    Thread { thread_id: String, event: ThreadEvent },
    Turn { thread_id: String, turn_id: String, event: TurnEvent },
}

/// The payload of a forwarded event.
#[derive(Debug, Clone, PartialEq, Eq)]
pub enum ThreadEventData {
    Empty,
    Text { text: String },
    ToolCallPrepared { call_id: String, tool_name: String },
    ToolCallCompleted { call_id: String, result: ToolOutcome },
    PermissionRequested { request_id: String, tool_call_id: String },
    PermissionResolved { request_id: String, decision: String },
    StepFinished { step_index: u32, reason: String },
    TurnFinished { reason: String },
}

/// A forwarded event: its thread, its turn where it happened in one, its
/// kind and its payload.
#[derive(Debug, Clone, PartialEq, Eq)]
pub struct ThreadEventPayload {
    pub thread_id: String,
    pub turn_id: Option<String>,
    pub kind: String,
    pub data: ThreadEventData,
}

/// The kind of a thread event.
pub open spec fn thread_event_kind(e: ThreadEvent) -> Seq<char> {
    match e {
        ThreadEvent::ThreadCreated => "thread-created"@,
        ThreadEvent::ThreadActivated => "thread-activated"@,
        ThreadEvent::ThreadUpdated => "thread-updated"@,
        ThreadEvent::ThreadArchived => "thread-archived"@,
        ThreadEvent::TurnEventForwarded => "turn-event-forwarded"@,
    }
}

/// The name under which a step's end is forwarded: the variant's name.
pub open spec fn step_reason_name(r: StepFinishReason) -> Seq<char> {
    match r {
        StepFinishReason::ToolCalls => "ToolCalls"@,
    }
}

/// The name under which a turn's end is forwarded: the variant's name.
pub open spec fn turn_reason_name(r: TurnFinishReason) -> Seq<char> {
    match r {
        TurnFinishReason::Completed => "Completed"@,
        TurnFinishReason::Cancelled => "Cancelled"@,
        TurnFinishReason::Failed => "Failed"@,
        TurnFinishReason::MaxStepsExceeded => "MaxStepsExceeded"@,
        TurnFinishReason::ModelLengthLimit => "ModelLengthLimit"@,
        TurnFinishReason::ModelProtocolError => "ModelProtocolError"@,
        TurnFinishReason::LlmTimeout => "LlmTimeout"@,
    }
}

/// The kind under which a turn event is forwarded.
pub open spec fn turn_event_kind(e: TurnEvent) -> Seq<char> {
    match e {
        TurnEvent::TurnStarted => "turn-started"@,
        TurnEvent::LlmTextDelta { .. } => "llm-text-delta"@,
        TurnEvent::LlmReasoningDelta { .. } => "llm-reasoning-delta"@,
        TurnEvent::ToolCallPrepared { .. } => "tool-call-prepared"@,
        TurnEvent::ToolCallCompleted { .. } => "tool-call-completed"@,
        TurnEvent::ToolCallPermissionRequested { .. } => "tool-call-permission-requested"@,
        TurnEvent::ToolCallPermissionResolved { .. } => "tool-call-permission-resolved"@,
        TurnEvent::StepFinished { .. } => "step-finished"@,
        TurnEvent::TurnFinished { .. } => "turn-finished"@,
    }
}

/// Whether `d` is the forwarded payload of turn event `e`.
pub open spec fn forwarded_data_is(e: TurnEvent, d: ThreadEventData) -> bool {
    match e {
        TurnEvent::TurnStarted => d is Empty,
        TurnEvent::LlmTextDelta { text } => d matches ThreadEventData::Text { text: t } && t@ == text@,
        TurnEvent::LlmReasoningDelta { text } => d matches ThreadEventData::Text { text: t } && t@ == text@,
        TurnEvent::ToolCallPrepared { call } => d matches ThreadEventData::ToolCallPrepared { call_id, tool_name }
            && call_id@ == call_id_of(call) && tool_name@ == tool_name_of(call),
        TurnEvent::ToolCallCompleted { call_id, result } => d matches ThreadEventData::ToolCallCompleted {
            call_id: c,
            result: r,
        } && c@ == call_id@ && r == result,
        TurnEvent::ToolCallPermissionRequested { request } => d matches ThreadEventData::PermissionRequested {
            request_id,
            tool_call_id,
        } && request_id@ == request.request_id@ && tool_call_id@ == request.tool_call_id@,
        TurnEvent::ToolCallPermissionResolved { request_id, decision } => d matches ThreadEventData::PermissionResolved {
            request_id: r,
            decision: n,
        } && r@ == request_id@ && n@ == decision_name(decision),
        TurnEvent::StepFinished { step_index, reason } => d matches ThreadEventData::StepFinished {
            step_index: i,
            reason: n,
        } && i == step_index && n@ == step_reason_name(reason),
        TurnEvent::TurnFinished { reason } => d matches ThreadEventData::TurnFinished { reason: n } && n@
            == turn_reason_name(reason),
    }
}

fn step_reason(reason: &StepFinishReason) -> (r: &'static str)
    ensures
        r@ == step_reason_name(*reason),
{
    match reason {
        StepFinishReason::ToolCalls => "ToolCalls",
    }
}

fn turn_reason(reason: &TurnFinishReason) -> (r: &'static str)
    ensures
        r@ == turn_reason_name(*reason),
{
    match reason {
        TurnFinishReason::Completed => "Completed",
        TurnFinishReason::Cancelled => "Cancelled",
        TurnFinishReason::Failed => "Failed",
        TurnFinishReason::MaxStepsExceeded => "MaxStepsExceeded",
        TurnFinishReason::ModelLengthLimit => "ModelLengthLimit",
        TurnFinishReason::ModelProtocolError => "ModelProtocolError",
        TurnFinishReason::LlmTimeout => "LlmTimeout",
    }
}

/// A turn event of thread `thread_id`, turn `turn_id`, as forwarded.
pub fn turn_event_payload(thread_id: &str, turn_id: &str, event: TurnEvent) -> (r: ThreadEventPayload)
    ensures
        r.thread_id@ == thread_id@,
        r.turn_id matches Some(t) && t@ == turn_id@,
        r.kind@ == turn_event_kind(event),
        forwarded_data_is(event, r.data),
{
    let (kind, data) = match event {
        TurnEvent::TurnStarted => ("turn-started", ThreadEventData::Empty),
        TurnEvent::LlmTextDelta { text } => ("llm-text-delta", ThreadEventData::Text { text }),
        TurnEvent::LlmReasoningDelta { text } => ("llm-reasoning-delta", ThreadEventData::Text { text }),
        TurnEvent::ToolCallPrepared { call } => (
            "tool-call-prepared",
            ThreadEventData::ToolCallPrepared {
                call_id: owned(tool_call_id(&call)),
                tool_name: owned(tool_name(&call)),
            },
        ),
        TurnEvent::ToolCallCompleted { call_id, result } => (
            "tool-call-completed",
            ThreadEventData::ToolCallCompleted { call_id, result },
        ),
        TurnEvent::ToolCallPermissionRequested { request } => (
            "tool-call-permission-requested",
            ThreadEventData::PermissionRequested {
                request_id: request.request_id,
                tool_call_id: request.tool_call_id,
            },
        ),
        TurnEvent::ToolCallPermissionResolved { request_id, decision } => (
            "tool-call-permission-resolved",
            ThreadEventData::PermissionResolved {
                request_id,
                decision: owned(
                    match decision {
                        PermissionDecision::Allow => "allow",
                        PermissionDecision::Deny => "deny",
                    },
                ),
            },
        ),
        TurnEvent::StepFinished { step_index, reason } => (
            "step-finished",
            ThreadEventData::StepFinished { step_index, reason: owned(step_reason(&reason)) },
        ),
        TurnEvent::TurnFinished { reason } => (
            "turn-finished",
            ThreadEventData::TurnFinished { reason: owned(turn_reason(&reason)) },
        ),
    };
    ThreadEventPayload {
        thread_id: owned(thread_id),
        turn_id: Some(owned(turn_id)),
        kind: owned(kind),
        data,
    }
}

/// A session event as forwarded: a thread event under its kind with an
/// empty payload, a turn event as `turn_event_payload` forwards it.
pub fn session_event_to_payload(event: SessionEvent) -> (r: ThreadEventPayload)
    ensures
        match event {
            SessionEvent::Thread { thread_id, event } => {
                &&& r.thread_id@ == thread_id@
                &&& r.turn_id is None
                &&& r.kind@ == thread_event_kind(event)
                &&& r.data is Empty
            },
            SessionEvent::Turn { thread_id, turn_id, event } => {
                &&& r.thread_id@ == thread_id@
                &&& r.turn_id matches Some(t) && t@ == turn_id@
                &&& r.kind@ == turn_event_kind(event)
                &&& forwarded_data_is(event, r.data)
            },
        },
{
    match event {
        SessionEvent::Thread { thread_id, event } => {
            let kind = match event {
                ThreadEvent::ThreadCreated => "thread-created",
                ThreadEvent::ThreadActivated => "thread-activated",
                ThreadEvent::ThreadUpdated => "thread-updated",
                ThreadEvent::ThreadArchived => "thread-archived",
                ThreadEvent::TurnEventForwarded => "turn-event-forwarded",
            };
            ThreadEventPayload { thread_id, turn_id: None, kind: owned(kind), data: ThreadEventData::Empty }
        },
        SessionEvent::Turn { thread_id, turn_id, event } => turn_event_payload(
            thread_id.as_str(),
            turn_id.as_str(),
            event,
        ),
    }
}

} // verus!
