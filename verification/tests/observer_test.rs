use argusx::chat::authorizer::PermissionRequest;
use argusx::chat::events::{StepFinishReason, ToolOutcome, TurnEvent, TurnFinishReason};
use argusx::chat::observer::{map_turn_event, ObservedEventData, ObservedToolError};
use argusx::chat::submission::PermissionDecision;
use argusx::protocol::{McpCall, McpCallType, ToolCall};

fn observed(event: TurnEvent) -> (String, ObservedEventData) {
    let ev = map_turn_event("conv-1", "turn-1", &event).expect("every event is observed");
    assert_eq!(ev.conversation_id, "conv-1");
    assert_eq!(ev.turn_id, "turn-1");
    (ev.event_type, ev.data)
}

#[test]
fn observer_names_approvals_and_step_reasons_its_own_way() {
    let (t, d) = observed(TurnEvent::ToolCallPermissionRequested {
        request: PermissionRequest { request_id: "r1".into(), tool_call_id: "c1".into() },
    });
    assert_eq!(t, "tool-approval-requested");
    assert_eq!(d, ObservedEventData::ApprovalRequested { request_id: "r1".into(), tool_call_id: "c1".into() });
    let (t, d) = observed(TurnEvent::ToolCallPermissionResolved { request_id: "r1".into(), decision: PermissionDecision::Deny });
    assert_eq!(t, "tool-approval-resolved");
    assert_eq!(d, ObservedEventData::ApprovalResolved { request_id: "r1".into(), decision: "deny".into() });
    let (t, d) = observed(TurnEvent::StepFinished { step_index: 3, reason: StepFinishReason::ToolCalls });
    assert_eq!(t, "step-finished");
    assert_eq!(d, ObservedEventData::StepFinished { step_index: 3, reason: "ToolCalls".into() });
    let (t, d) = observed(TurnEvent::TurnFinished { reason: TurnFinishReason::MaxStepsExceeded });
    assert_eq!(t, "turn-finished");
    assert_eq!(d, ObservedEventData::TurnFinished { reason: "max_steps_exceeded".into() });
    let (t, d) = observed(TurnEvent::TurnStarted);
    assert_eq!((t.as_str(), d), ("turn-started", ObservedEventData::Empty));
}

#[test]
fn observer_splits_tool_outcomes() {
    let completed = |result: ToolOutcome| observed(TurnEvent::ToolCallCompleted { call_id: "c1".into(), result }).1;
    assert_eq!(
        completed(ToolOutcome::Success { output_json: "{\"ok\":true}".into() }),
        ObservedEventData::ToolCallCompleted {
            call_id: "c1".into(),
            status: "success".into(),
            output_json: Some("{\"ok\":true}".into()),
            error: None,
        }
    );
    assert_eq!(
        completed(ToolOutcome::Failed { message: "boom".into(), retryable: true }),
        ObservedEventData::ToolCallCompleted {
            call_id: "c1".into(),
            status: "error".into(),
            output_json: None,
            error: Some(ObservedToolError { message: "boom".into(), retryable: Some(true) }),
        }
    );
    for (outcome, status, message) in [
        (ToolOutcome::TimedOut, "timed_out", "tool execution timed out"),
        (ToolOutcome::Denied, "denied", "tool execution was denied"),
        (ToolOutcome::Cancelled, "cancelled", "tool execution was cancelled"),
    ] {
        assert_eq!(
            completed(outcome),
            ObservedEventData::ToolCallCompleted {
                call_id: "c1".into(),
                status: status.into(),
                output_json: None,
                error: Some(ObservedToolError { message: message.into(), retryable: None }),
            }
        );
    }
}

#[test]
fn observer_reports_missing_mcp_arguments_as_none() {
    let mcp = ToolCall::Mcp(McpCall {
        sequence: 2,
        id: "m1".into(),
        mcp_type: McpCallType::McpCall,
        server_label: None,
        name: Some("search".into()),
        arguments_json: None,
        output_json: None,
        tools_json: None,
        error: None,
    });
    let (t, d) = observed(TurnEvent::ToolCallPrepared { call: mcp });
    assert_eq!(t, "tool-call-prepared");
    assert_eq!(
        d,
        ObservedEventData::ToolCallPrepared { call_id: "m1".into(), name: "search".into(), arguments_json: None }
    );
    let (t, d) = observed(TurnEvent::LlmTextDelta { text: "hi".into() });
    assert_eq!(t, "llm-text-delta");
    assert_eq!(d, ObservedEventData::Text { text: "hi".into() });
}
