use argusx::chat::authorizer::{authorization, AuthorizationDecision};
use argusx::chat::events::{HydratedChatTurnStatus, HydratedToolCallStatus};
use argusx::chat::hydrate::{
    choose_active_chat_thread, hydrate_chat_turn, hydrated_turn_error, HistoryMessage,
    HistoryToolCall, HistoryTurn, HistoryTurnStatus, SessionThread, ThreadLifecycle,
};
use argusx::chat::mapper::{tool_arguments_json, tool_name, DesktopTurnEventMapper};
use argusx::chat::plan::{snapshot_from_output, DesktopPlanTaskStatus, PlanFields, PlanTaskFields};
use argusx::protocol::{Builtin, BuiltinToolCall, McpCall, McpCallType, ToolCall};

fn plan_fields(title: &str, tasks: Vec<(&str, &str, &str)>, streaming: Option<bool>) -> PlanFields {
    PlanFields {
        title: Some(title.to_string()),
        description: Some("Already in progress".to_string()),
        tasks: Some(
            tasks
                .into_iter()
                .map(|(id, status, title)| {
                    Some(PlanTaskFields {
                        id: Some(id.to_string()),
                        title: Some(title.to_string()),
                        status: Some(status.to_string()),
                    })
                })
                .collect(),
        ),
        is_streaming: streaming,
    }
}

fn turn(status: HistoryTurnStatus, transcript: Vec<HistoryMessage>, final_output: Option<&str>) -> HistoryTurn {
    HistoryTurn {
        turn_id: "turn-1".into(),
        user_input: "Review this plan".into(),
        status,
        finish_reason: Some("Completed".into()),
        transcript,
        final_output: final_output.map(|s| s.to_string()),
    }
}

#[test]
fn choose_active_chat_thread_prefers_runtime_active_thread() {
    let active_thread_id = uuid::Uuid::new_v4();
    let other_thread_id = uuid::Uuid::new_v4();
    let threads = vec![SessionThread { id: other_thread_id, lifecycle: ThreadLifecycle::Open }];

    let selected = choose_active_chat_thread(Some(active_thread_id), &threads);

    assert_eq!(selected, Some(active_thread_id));
}

#[test]
fn choose_active_chat_thread_falls_back_to_latest_open_thread() {
    let latest_open_id = uuid::Uuid::new_v4();
    let threads = vec![
        SessionThread { id: latest_open_id, lifecycle: ThreadLifecycle::Open },
        SessionThread { id: uuid::Uuid::new_v4(), lifecycle: ThreadLifecycle::Archived },
    ];

    let selected = choose_active_chat_thread(None, &threads);

    assert_eq!(selected, Some(latest_open_id));
}

#[test]
fn choose_active_chat_thread_skips_archived_threads() {
    let open = uuid::Uuid::new_v4();
    let threads = vec![
        SessionThread { id: uuid::Uuid::new_v4(), lifecycle: ThreadLifecycle::Archived },
        SessionThread { id: open, lifecycle: ThreadLifecycle::Open },
    ];
    assert_eq!(choose_active_chat_thread(None, &threads), Some(open));
    assert_eq!(choose_active_chat_thread(None, &threads[..1].iter().map(|t| SessionThread { id: t.id, lifecycle: t.lifecycle }).collect()), None);
}

#[test]
fn hydrate_chat_turn_restores_tool_calls_and_plan_snapshot() {
    let t = turn(
        HistoryTurnStatus::Completed,
        vec![
            HistoryMessage::User { content: "Review this plan".into() },
            HistoryMessage::AssistantToolCalls {
                content: Some("Let me inspect the repo.".into()),
                calls: vec![HistoryToolCall {
                    call_id: "call-update-plan".into(),
                    tool_name: "update_plan".into(),
                    arguments: r#"{"plan":[{"step":"Write failing test","status":"completed"}]}"#.into(),
                }],
            },
            HistoryMessage::ToolResult {
                call_id: "call-update-plan".into(),
                tool_name: "update_plan".into(),
                content: r#"{"plan":{"title":"Execution Plan","description":"Already in progress","is_streaming":false,"tasks":[{"id":"task-1","status":"completed","title":"Write failing test"}]}}"#.into(),
                is_error: false,
            },
            HistoryMessage::AssistantText { content: "Implemented the bootstrap shim.".into() },
        ],
        Some("Implemented the bootstrap shim."),
    );

    let hydrated = hydrate_chat_turn(&t);

    assert_eq!(hydrated.turn_id, "turn-1");
    assert_eq!(hydrated.prompt, "Review this plan");
    assert_eq!(hydrated.assistant_text, "Implemented the bootstrap shim.");
    assert_eq!(hydrated.status, HydratedChatTurnStatus::Completed);
    assert_eq!(hydrated.tool_calls.len(), 1);
    assert_eq!(hydrated.tool_calls[0].call_id, "call-update-plan");
    assert_eq!(hydrated.tool_calls[0].status, HydratedToolCallStatus::Success);
    assert_eq!(
        hydrated.latest_plan.as_ref().map(|plan| plan.title.as_str()),
        Some("Execution Plan")
    );
}

#[test]
fn hydrate_gathers_text_and_failed_results() {
    let t = turn(
        HistoryTurnStatus::Failed,
        vec![
            HistoryMessage::AssistantText { content: "a".into() },
            HistoryMessage::AssistantToolCalls { content: None, calls: vec![] },
            HistoryMessage::ToolResult {
                call_id: "orphan".into(),
                tool_name: "read".into(),
                content: "no such file".into(),
                is_error: true,
            },
            HistoryMessage::AssistantText { content: "b".into() },
        ],
        None,
    );
    let h = hydrate_chat_turn(&t);
    assert_eq!(h.assistant_text, "ab");
    assert_eq!(h.tool_calls.len(), 1);
    assert_eq!(h.tool_calls[0].arguments_json, "{}");
    assert_eq!(h.tool_calls[0].status, HydratedToolCallStatus::Failed);
    assert_eq!(h.tool_calls[0].error_summary.as_deref(), Some("no such file"));
    assert_eq!(h.status, HydratedChatTurnStatus::Failed);
    assert_eq!(h.error.as_deref(), Some("Turn ended with completed."));
    assert!(h.latest_plan.is_none());
}

#[test]
fn interrupted_turns_show_as_failed() {
    for status in [HistoryTurnStatus::Interrupted, HistoryTurnStatus::Running, HistoryTurnStatus::WaitingPermission] {
        let h = hydrate_chat_turn(&turn(status, vec![], None));
        assert_eq!(h.status, HydratedChatTurnStatus::Failed);
        assert_eq!(h.error.as_deref(), Some("Turn interrupted."));
    }
    let h = hydrate_chat_turn(&turn(HistoryTurnStatus::Cancelled, vec![], None));
    assert_eq!(h.status, HydratedChatTurnStatus::Cancelled);
    assert_eq!(h.error, None);
    let mut t = turn(HistoryTurnStatus::Failed, vec![], None);
    t.finish_reason = None;
    assert_eq!(hydrated_turn_error(&t, "Turn failed."), "Turn failed.");
}

#[test]
fn a_later_unusable_plan_clears_the_latest_plan() {
    let result = |content: &str| HistoryMessage::ToolResult {
        call_id: "p".into(),
        tool_name: "update_plan".into(),
        content: content.into(),
        is_error: false,
    };
    let good = r#"{"plan":{"title":"P","tasks":[{"id":"t","status":"pending","title":"T"}]}}"#;
    let h = hydrate_chat_turn(&turn(HistoryTurnStatus::Completed, vec![result(good), result("not json")], None));
    let plan = h.latest_plan.expect("plan kept past text that is not JSON");
    assert_eq!(plan.title, "P");
    assert!(plan.is_streaming);
    let h = hydrate_chat_turn(&turn(HistoryTurnStatus::Completed, vec![result(good), result("{}")], None));
    assert!(h.latest_plan.is_none());
    let h = hydrate_chat_turn(&turn(
        HistoryTurnStatus::Completed,
        vec![result(r#"{"plan":{"title":"Q","tasks":[{"id":"t","status":"done","title":"T"}]}}"#)],
        None,
    ));
    assert!(h.latest_plan.is_none());
}

#[test]
fn plan_snapshots_from_fields() {
    let s = snapshot_from_output("call-1", &plan_fields(" Plan ", vec![("a", "in_progress", "A"), ("b", "completed", "B")], None))
        .expect("snapshot");
    assert_eq!(s.title, "Plan");
    assert_eq!(s.tasks[0].status, DesktopPlanTaskStatus::InProgress);
    assert!(s.is_streaming);
    assert_eq!(s.source_call_id, "call-1");
    assert!(snapshot_from_output("c", &plan_fields("  ", vec![], None)).is_none());
    assert!(snapshot_from_output("c", &plan_fields("P", vec![("a", "done", "A")], None)).is_none());
    let done = snapshot_from_output("c", &plan_fields("P", vec![("a", "completed", "A")], None)).unwrap();
    assert!(!done.is_streaming);
}

#[test]
fn event_mapper_tracks_prepared_plan_updates() {
    let mut mapper = DesktopTurnEventMapper::new();
    let plan_call = ToolCall::Builtin(BuiltinToolCall {
        sequence: 0,
        call_id: "c1".into(),
        builtin: Builtin::UpdatePlan,
        arguments_json: "{}".into(),
    });
    let other = ToolCall::FunctionCall {
        sequence: 1,
        call_id: "c2".into(),
        name: "get_weather".into(),
        arguments_json: "{\"city\":\"x\"}".into(),
    };
    assert_eq!(tool_name(&plan_call), "update_plan");
    assert_eq!(tool_arguments_json(&other), "{\"city\":\"x\"}");
    mapper.record_prepared("turn-1", &plan_call);
    mapper.record_prepared("turn-1", &other);
    assert!(mapper.complete_call("turn-1", "c1"));
    assert!(!mapper.complete_call("turn-1", "c1"));
    assert!(!mapper.complete_call("turn-2", "c2"));
    mapper.record_prepared("turn-2", &plan_call);
    mapper.finish_turn("turn-1");
    assert_eq!(mapper.take_prepared("turn-1", "c2"), None);
    assert_eq!(mapper.take_prepared("turn-2", "c1"), Some("update_plan".to_string()));
    let mcp = ToolCall::Mcp(McpCall {
        sequence: 2,
        id: "m1".into(),
        mcp_type: McpCallType::McpCall,
        server_label: None,
        name: None,
        arguments_json: None,
        output_json: None,
        tools_json: None,
        error: None,
    });
    assert_eq!(tool_name(&mcp), "");
    assert_eq!(tool_arguments_json(&mcp), "{}");
}

#[test]
fn authorizer_allows_only_permitted_builtins() {
    let call = ToolCall::Builtin(BuiltinToolCall {
        sequence: 0,
        call_id: "b1".into(),
        builtin: Builtin::Read,
        arguments_json: "{}".into(),
    });
    assert_eq!(authorization(&call, true), AuthorizationDecision::Allow);
    match authorization(&call, false) {
        AuthorizationDecision::Ask(req) => {
            assert_eq!(req.request_id, "perm-b1");
            assert_eq!(req.tool_call_id, "b1");
        }
        _ => panic!("expected a permission request"),
    }
    let f = ToolCall::FunctionCall { sequence: 0, call_id: "f1".into(), name: "x".into(), arguments_json: "{}".into() };
    assert!(matches!(authorization(&f, true), AuthorizationDecision::Ask(_)));
}
