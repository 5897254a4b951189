use argusx::chat::commands::ResolveTurnPermissionDecision;
use argusx::chat::control::{ControlError, SubmissionResult};
use argusx::chat::events::TurnTargetKind;
use argusx::chat::submission::{
    PermissionDecision, PromptInput, Submission, ThreadCreated, ThreadSwitched, TurnStarted,
};

#[test]
fn resolve_turn_permission_decision_maps_deny() {
    assert!(matches!(
        ResolveTurnPermissionDecision::Deny.into_permission_decision(),
        PermissionDecision::Deny
    ));
}

#[test]
fn resolve_turn_permission_decision_maps_allow() {
    assert!(matches!(
        ResolveTurnPermissionDecision::Allow.into_permission_decision(),
        PermissionDecision::Allow
    ));
}

#[test]
fn control_error_display_formats_correctly() {
    let err = ControlError::NotFound("turn not found".to_string());
    assert_eq!(err.to_string(), "Not found: turn not found");

    let err = ControlError::Unavailable("provider not configured".to_string());
    assert_eq!(err.to_string(), "Unavailable: provider not configured");
}

#[test]
fn control_error_variants() {
    let err = ControlError::InvalidInput("invalid UUID".to_string());
    assert!(matches!(err, ControlError::InvalidInput(_)));

    let err = ControlError::NotFound("missing".to_string());
    assert!(matches!(err, ControlError::NotFound(_)));

    let err = ControlError::Conflict("already running".to_string());
    assert!(matches!(err, ControlError::Conflict(_)));

    let err = ControlError::Unavailable("no provider".to_string());
    assert!(matches!(err, ControlError::Unavailable(_)));

    let err = ControlError::Internal("panic".to_string());
    assert!(matches!(err, ControlError::Internal(_)));
}

#[test]
fn control_error_texts_of_every_kind() {
    assert_eq!(ControlError::InvalidInput("x".into()).to_string(), "Invalid input: x");
    assert_eq!(ControlError::Conflict("y".into()).to_string(), "Conflict: y");
    assert_eq!(ControlError::Internal("z".into()).to_string(), "Internal error: z");
}

#[test]
fn submission_result_variants() {
    let _ = SubmissionResult::Cancelled;
    let _ = SubmissionResult::PermissionResolved;
}

#[test]
fn control_submission_prompt_variant() {
    let submission = Submission::Prompt {
        text: "Hello world".to_string(),
    };
    assert!(matches!(submission, Submission::Prompt { text } if text == "Hello world"));
}

#[test]
fn submission_new_thread_variant() {
    let submission = Submission::NewThread {
        title: Some("My Thread".to_string()),
    };
    assert!(matches!(submission, Submission::NewThread { title: Some(t) } if t == "My Thread"));
}

#[test]
fn submission_switch_thread_variant() {
    let thread_id = uuid::Uuid::new_v4();
    let submission = Submission::SwitchThread { thread_id };
    assert!(matches!(submission, Submission::SwitchThread { thread_id: id } if id == thread_id));
}

#[test]
fn submission_cancel_turn_variant() {
    let submission = Submission::CancelTurn {
        turn_id: "turn-123".to_string(),
    };
    assert!(matches!(submission, Submission::CancelTurn { turn_id } if turn_id == "turn-123"));
}

#[test]
fn submission_resolve_permission_variant() {
    let submission = Submission::ResolvePermission {
        turn_id: "turn-456".to_string(),
        request_id: "req-789".to_string(),
        decision: PermissionDecision::Allow,
    };
    assert!(matches!(
        submission,
        Submission::ResolvePermission { turn_id, request_id, decision }
        if turn_id == "turn-456" && request_id == "req-789" && decision == PermissionDecision::Allow
    ));
}

#[test]
fn turn_started_result_contains_turn_id() {
    let result = TurnStarted {
        turn_id: "test-turn-id".to_string(),
    };
    assert_eq!(result.turn_id, "test-turn-id");
}

#[test]
fn thread_created_result_contains_thread_id() {
    let thread_id = uuid::Uuid::new_v4();
    let result = ThreadCreated { thread_id };
    assert_eq!(result.thread_id, thread_id);
}

#[test]
fn thread_switched_result_contains_thread_id() {
    let thread_id = uuid::Uuid::new_v4();
    let result = ThreadSwitched { thread_id };
    assert_eq!(result.thread_id, thread_id);
}

#[test]
fn submission_submission_prompt_variant() {
    let submission = Submission::Prompt {
        text: "Hello".into(),
    };
    assert!(matches!(submission, Submission::Prompt { text } if text == "Hello"));
}

#[test]
fn submission_new_thread_with_title() {
    let submission = Submission::NewThread {
        title: Some("My Thread".into()),
    };
    assert!(matches!(submission, Submission::NewThread { title: Some(t) } if t == "My Thread"));
}

#[test]
fn submission_new_thread_without_title() {
    let submission = Submission::NewThread { title: None };
    assert!(matches!(submission, Submission::NewThread { title: None }));
}

#[test]
fn submission_switch_thread() {
    let thread_id = uuid::Uuid::new_v4();
    let submission = Submission::SwitchThread { thread_id };
    assert!(matches!(submission, Submission::SwitchThread { thread_id: id } if id == thread_id));
}

#[test]
fn submission_cancel_turn() {
    let submission = Submission::CancelTurn {
        turn_id: "turn-123".into(),
    };
    assert!(matches!(submission, Submission::CancelTurn { turn_id } if turn_id == "turn-123"));
}

#[test]
fn submission_resolve_permission_allow() {
    let submission = Submission::ResolvePermission {
        turn_id: "turn-456".into(),
        request_id: "req-789".into(),
        decision: PermissionDecision::Allow,
    };
    assert!(matches!(
        submission,
        Submission::ResolvePermission { turn_id, request_id, decision }
            if turn_id == "turn-456"
                && request_id == "req-789"
                && matches!(decision, PermissionDecision::Allow)
    ));
}

#[test]
fn submission_resolve_permission_deny() {
    let submission = Submission::ResolvePermission {
        turn_id: "turn-456".into(),
        request_id: "req-789".into(),
        decision: PermissionDecision::Deny,
    };
    assert!(matches!(
        submission,
        Submission::ResolvePermission { decision: PermissionDecision::Deny, .. }
    ));
}

#[test]
fn turn_started_stores_turn_id() {
    let result = TurnStarted {
        turn_id: "turn-abc".into(),
    };
    assert_eq!(result.turn_id, "turn-abc");
}

#[test]
fn thread_created_stores_thread_id() {
    let thread_id = uuid::Uuid::new_v4();
    let result = ThreadCreated { thread_id };
    assert_eq!(result.thread_id, thread_id);
}

#[test]
fn thread_switched_stores_thread_id() {
    let thread_id = uuid::Uuid::new_v4();
    let result = ThreadSwitched { thread_id };
    assert_eq!(result.thread_id, thread_id);
}

#[test]
fn prompt_input_keeps_its_target() {
    let input = PromptInput {
        text: "hi".into(),
        target_kind: TurnTargetKind::Workflow,
        target_id: "wf-1".into(),
    };
    assert_eq!(input.target_kind, TurnTargetKind::Workflow);
    assert_eq!(input.target_id, "wf-1");
}
