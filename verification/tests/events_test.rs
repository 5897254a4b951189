use argusx::chat::authorizer::{AllowListedToolAuthorizer, AuthorizationDecision, PermissionRequest};
use argusx::chat::events::{
    map_turn_event, plan_updated_event, snapshot_from_tool_outcome, tool_outcome_value, turn_finish_reason,
    StepFinishReason, ToolOutcome, TurnEvent, TurnEventData, TurnFinishReason,
};
use argusx::chat::mapper::DesktopTurnEventMapper;
use argusx::chat::session_events::{
    session_event_to_payload, turn_event_payload, SessionEvent, ThreadEvent, ThreadEventData,
};
use argusx::chat::plan::DesktopPlanTaskStatus;
use argusx::chat::submission::PermissionDecision;
use argusx::protocol::{Builtin, BuiltinToolCall, ToolCall};

fn update_plan_call(call_id: &str) -> ToolCall {
    ToolCall::Builtin(BuiltinToolCall {
        sequence: 0,
        call_id: call_id.to_string(),
        builtin: Builtin::UpdatePlan,
        arguments_json: "{}".to_string(),
    })
}

fn success_with_plan() -> ToolOutcome {
    ToolOutcome::Success {
        output_json: r#"{"plan":{"title":" Ship it ","tasks":[{"id":"t1","title":"Write","status":"in_progress"}]}}"#
            .to_string(),
    }
}

#[test]
fn every_turn_event_has_its_wire_type() {
    let cases = vec![
        (TurnEvent::TurnStarted, "turn-started"),
        (TurnEvent::LlmTextDelta { text: "hi".into() }, "llm-text-delta"),
        (TurnEvent::LlmReasoningDelta { text: "hm".into() }, "llm-reasoning-delta"),
        (TurnEvent::ToolCallPrepared { call: update_plan_call("c1") }, "tool-call-prepared"),
        (TurnEvent::ToolCallCompleted { call_id: "c1".into(), result: ToolOutcome::Denied }, "tool-call-completed"),
        (
            TurnEvent::ToolCallPermissionRequested {
                request: PermissionRequest { request_id: "r1".into(), tool_call_id: "c1".into() },
            },
            "tool-call-permission-requested",
        ),
        (
            TurnEvent::ToolCallPermissionResolved { request_id: "r1".into(), decision: PermissionDecision::Deny },
            "tool-call-permission-resolved",
        ),
        (TurnEvent::StepFinished { step_index: 2, reason: StepFinishReason::ToolCalls }, "step-finished"),
        (TurnEvent::TurnFinished { reason: TurnFinishReason::MaxStepsExceeded }, "turn-finished"),
    ];
    for (event, event_type) in cases {
        let mapped = map_turn_event("turn-1", &event).expect("every event maps");
        assert_eq!(mapped.turn_id, "turn-1");
        assert_eq!(mapped.event_type, event_type);
    }
}

#[test]
fn turn_event_payloads_carry_their_fields() {
    let mapped = map_turn_event("t", &TurnEvent::ToolCallPrepared { call: update_plan_call("c9") }).unwrap();
    assert_eq!(
        mapped.data,
        TurnEventData::ToolCallPrepared {
            call_id: "c9".into(),
            name: "update_plan".into(),
            arguments_json: "{}".into()
        }
    );
    let mapped = map_turn_event(
        "t",
        &TurnEvent::ToolCallPermissionResolved { request_id: "r".into(), decision: PermissionDecision::Allow },
    )
    .unwrap();
    assert_eq!(mapped.data, TurnEventData::PermissionResolved { request_id: "r".into(), decision: "allow".into() });
    let mapped = map_turn_event("t", &TurnEvent::StepFinished { step_index: 3, reason: StepFinishReason::ToolCalls }).unwrap();
    assert_eq!(mapped.data, TurnEventData::StepFinished { step_index: 3, reason: "tool_calls".into() });
    assert_eq!(turn_finish_reason(&TurnFinishReason::LlmTimeout), "llm_timeout");
}

#[test]
fn tool_outcome_values() {
    let v = tool_outcome_value(&ToolOutcome::Failed { message: "boom".into(), retryable: true });
    assert_eq!(v.status, "failed");
    assert_eq!(v.message.as_deref(), Some("boom"));
    assert_eq!(v.retryable, Some(true));
    assert!(v.output_json.is_none());
    let v = tool_outcome_value(&success_with_plan());
    assert_eq!(v.status, "success");
    assert_eq!(
        v.output_json.as_deref(),
        Some(r#"{"plan":{"title":" Ship it ","tasks":[{"id":"t1","title":"Write","status":"in_progress"}]}}"#)
    );
    assert_eq!(tool_outcome_value(&ToolOutcome::TimedOut).status, "timed_out");
    assert_eq!(tool_outcome_value(&ToolOutcome::Cancelled).status, "cancelled");
}

#[test]
fn only_successes_with_a_plan_report_one() {
    let s = snapshot_from_tool_outcome("c1", &success_with_plan()).expect("plan");
    assert_eq!(s.title, "Ship it");
    assert_eq!(s.tasks[0].status, DesktopPlanTaskStatus::InProgress);
    assert!(s.is_streaming);
    assert_eq!(s.source_call_id, "c1");
    assert!(snapshot_from_tool_outcome("c1", &ToolOutcome::Denied).is_none());
    let no_plan = ToolOutcome::Success { output_json: "1".into() };
    assert!(snapshot_from_tool_outcome("c1", &no_plan).is_none());
    let event = plan_updated_event("turn", "c1", &success_with_plan()).expect("event");
    assert_eq!(event.event_type, "plan-updated");
    assert!(plan_updated_event("turn", "c1", &no_plan).is_none());
}

#[test]
fn mapper_adds_plan_event_only_for_prepared_update_plan_calls() {
    let mut mapper = DesktopTurnEventMapper::default();
    let prepared = mapper.map_event("turn", &TurnEvent::ToolCallPrepared { call: update_plan_call("c1") });
    assert_eq!(prepared.len(), 1);

    let completed = mapper.map_event("turn", &TurnEvent::ToolCallCompleted { call_id: "c1".into(), result: success_with_plan() });
    assert_eq!(completed.len(), 2);
    assert_eq!(completed[0].event_type, "tool-call-completed");
    assert_eq!(completed[1].event_type, "plan-updated");

    // The call was forgotten once completed.
    let again = mapper.map_event("turn", &TurnEvent::ToolCallCompleted { call_id: "c1".into(), result: success_with_plan() });
    assert_eq!(again.len(), 1);

    // A call that was never prepared does not report its plan.
    let stray = mapper.map_event("turn", &TurnEvent::ToolCallCompleted { call_id: "c2".into(), result: success_with_plan() });
    assert_eq!(stray.len(), 1);
}

#[test]
fn mapper_forgets_calls_of_finished_turns() {
    let mut mapper = DesktopTurnEventMapper::new();
    mapper.map_event("a", &TurnEvent::ToolCallPrepared { call: update_plan_call("c1") });
    mapper.map_event("b", &TurnEvent::ToolCallPrepared { call: update_plan_call("c1") });
    let finished = mapper.map_event("a", &TurnEvent::TurnFinished { reason: TurnFinishReason::Completed });
    assert_eq!(finished.len(), 1);
    let in_a = mapper.map_event("a", &TurnEvent::ToolCallCompleted { call_id: "c1".into(), result: success_with_plan() });
    assert_eq!(in_a.len(), 1);
    let in_b = mapper.map_event("b", &TurnEvent::ToolCallCompleted { call_id: "c1".into(), result: success_with_plan() });
    assert_eq!(in_b.len(), 2);
}


#[test]
fn allow_listed_builtins_run_and_others_ask() {
    let authorizer = AllowListedToolAuthorizer::new(vec![Builtin::Read, Builtin::Unknown("browser".into())]);
    let read = ToolCall::Builtin(BuiltinToolCall {
        sequence: 0,
        call_id: "c1".into(),
        builtin: Builtin::Read,
        arguments_json: "{}".into(),
    });
    assert_eq!(authorizer.authorize(&read), Ok(AuthorizationDecision::Allow));
    let browser = ToolCall::Builtin(BuiltinToolCall {
        sequence: 1,
        call_id: "c2".into(),
        builtin: Builtin::Unknown("browser".into()),
        arguments_json: "{}".into(),
    });
    assert_eq!(authorizer.authorize(&browser), Ok(AuthorizationDecision::Allow));
    assert_eq!(
        authorizer.authorize(&update_plan_call("c3")),
        Ok(AuthorizationDecision::Ask(PermissionRequest { request_id: "perm-c3".into(), tool_call_id: "c3".into() }))
    );
    let function = ToolCall::FunctionCall { sequence: 0, call_id: "f1".into(), name: "x".into(), arguments_json: "{}".into() };
    assert_eq!(
        authorizer.authorize(&function),
        Ok(AuthorizationDecision::Ask(PermissionRequest { request_id: "perm-f1".into(), tool_call_id: "f1".into() }))
    );
}

#[test]
fn session_events_are_forwarded_with_their_kinds() {
    let p = session_event_to_payload(SessionEvent::Thread { thread_id: "th".into(), event: ThreadEvent::ThreadArchived });
    assert_eq!(p.kind, "thread-archived");
    assert_eq!(p.turn_id, None);
    assert_eq!(p.data, ThreadEventData::Empty);

    let p = session_event_to_payload(SessionEvent::Turn {
        thread_id: "th".into(),
        turn_id: "tu".into(),
        event: TurnEvent::TurnFinished { reason: TurnFinishReason::ModelLengthLimit },
    });
    assert_eq!(p.kind, "turn-finished");
    assert_eq!(p.turn_id.as_deref(), Some("tu"));
    assert_eq!(p.data, ThreadEventData::TurnFinished { reason: "ModelLengthLimit".into() });

    let p = turn_event_payload("th", "tu", TurnEvent::ToolCallPrepared { call: update_plan_call("c1") });
    assert_eq!(p.data, ThreadEventData::ToolCallPrepared { call_id: "c1".into(), tool_name: "update_plan".into() });
    let p = turn_event_payload("th", "tu", TurnEvent::StepFinished { step_index: 4, reason: StepFinishReason::ToolCalls });
    assert_eq!(p.data, ThreadEventData::StepFinished { step_index: 4, reason: "ToolCalls".into() });
}
