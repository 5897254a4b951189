use std::sync::Arc;

use argusx::protocol::{
    Builtin, BuiltinToolCall, ContractError, FinishReason, McpCall, McpCallType, Meta,
    ResponseContract, ResponseEvent, ToolCall, Usage, ZaiMcpCall, ZaiMcpType,
};

#[test]
fn builtin_tool_call_shape_matches_contract() {
    let call = ToolCall::Builtin(BuiltinToolCall {
        sequence: 0,
        call_id: "call_builtin_1".into(),
        builtin: Builtin::Read,
        arguments_json: r#"{"path":"Cargo.toml"}"#.into(),
    });

    match call {
        ToolCall::Builtin(inner) => assert!(matches!(inner.builtin, Builtin::Read)),
        _ => panic!("expected builtin tool call"),
    }
}

#[test]
fn git_builtin_name_and_variant() {
    assert_eq!(Builtin::Git.canonical_name(), "git");
    assert!(matches!(Builtin::from_name("git"), Some(Builtin::Git)));
}

#[test]
fn terminal_event_is_exclusive() {
    let mut c = ResponseContract::new();
    assert!(c
        .accept(&ResponseEvent::Done { reason: FinishReason::Stop, usage: Some(Usage::zero()) })
        .is_ok());
    assert!(c.accept(&ResponseEvent::Error("late".into())).is_err());
}

#[test]
fn delta_after_terminal_is_rejected() {
    let mut c = ResponseContract::new();
    assert!(c
        .accept(&ResponseEvent::Done { reason: FinishReason::Stop, usage: None })
        .is_ok());
    assert!(c
        .accept(&ResponseEvent::ContentDelta("late".into()))
        .is_err());
}

#[test]
fn done_after_error_is_rejected() {
    let mut c = ResponseContract::new();
    assert!(c.accept(&ResponseEvent::Error("boom".into())).is_ok());
    assert!(c
        .accept(&ResponseEvent::Done { reason: FinishReason::Stop, usage: None })
        .is_err());
}

#[test]
fn done_event_preserves_finish_reason() {
    let event = ResponseEvent::Done {
        reason: FinishReason::ToolCalls,
        usage: Some(Usage::zero()),
    };

    match event {
        ResponseEvent::Done { reason, .. } => assert_eq!(reason, FinishReason::ToolCalls),
        _ => panic!("expected done event"),
    }
}

#[test]
fn mcp_shape_is_zai_aligned() {
    let _ = ToolCall::Mcp(ZaiMcpCall {
        sequence: 0,
        id: "call_1".into(),
        mcp_type: ZaiMcpType::McpCall,
        server_label: Some("fs".into()),
        name: Some("read_file".into()),
        arguments_json: Some("{\"path\":\"./config.yaml\"}".into()),
        output_json: None,
        tools_json: None,
        error: None,
    });
}

#[test]
fn response_event_shape_matches_design() {
    let _ = ResponseEvent::Created(Meta {
        id: "2026030609392522891edc8ea44775".into(),
        created: 1772761165,
        object: "chat.completion.chunk".into(),
        model: "model-test".into(),
    });
    let _ = ResponseEvent::ContentDelta(Arc::<str>::from("hi"));
    let _ = ResponseEvent::ReasoningDelta(Arc::<str>::from("think"));
    let _ = ResponseEvent::ToolDelta(Arc::<str>::from("{\"city\""));
    let _ = ResponseEvent::ToolDone(ToolCall::FunctionCall {
        sequence: 0,
        call_id: "call_1".into(),
        name: "get_weather".into(),
        arguments_json: "{\"city\":\"北京\"}".into(),
    });
    let _ = ResponseEvent::ToolDone(ToolCall::Builtin(BuiltinToolCall {
        sequence: 1,
        call_id: "call_builtin".into(),
        builtin: Builtin::Read,
        arguments_json: "{\"path\":\"Cargo.toml\"}".into(),
    }));
    let _ = ResponseEvent::ToolDone(ToolCall::Mcp(McpCall {
        sequence: 2,
        id: "call_2".into(),
        mcp_type: McpCallType::McpCall,
        server_label: Some("weather".into()),
        name: Some("get_weather".into()),
        arguments_json: Some("{\"city\":\"北京\"}".into()),
        output_json: None,
        tools_json: None,
        error: None,
    }));
    let _ = ResponseEvent::Done {
        reason: FinishReason::Stop,
        usage: Some(Usage {
            input_tokens: 1,
            output_tokens: 2,
            total_tokens: 3,
        }),
    };
}

#[test]
fn contract_accepts_deltas_before_terminal() {
    let mut c = ResponseContract::new();
    assert!(c.accept(&ResponseEvent::ContentDelta("a".into())).is_ok());
    assert!(c.accept(&ResponseEvent::ReasoningDelta("b".into())).is_ok());
    assert!(c.accept(&ResponseEvent::Error("x".into())).is_ok());
    assert_eq!(
        c.accept(&ResponseEvent::ToolDelta("c".into())),
        Err(ContractError::AfterTerminal)
    );
}

#[test]
fn builtin_names_round_trip() {
    for b in [Builtin::Read, Builtin::Glob, Builtin::Grep, Builtin::Git, Builtin::UpdatePlan] {
        let name = b.canonical_name().to_string();
        assert_eq!(Builtin::from_name(&name).map(|x| x.canonical_name().to_string()), Some(name));
    }
    assert!(Builtin::from_name("no-such-tool").is_none());
}

#[test]
fn finish_reason_from_wire_maps_known_values() {
    assert_eq!(FinishReason::from_wire("stop"), FinishReason::Stop);
    assert_eq!(FinishReason::from_wire("tool_calls"), FinishReason::ToolCalls);
}
