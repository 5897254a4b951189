use argusx::chat::error::TurnError;
use argusx::chat::events::TurnTargetKind;
use argusx::chat::model::{
    connection_from_settings, map_message, parse_dialect, to_provider_tool, Dialect, LlmStepRequest, ProviderModelRunner, ProviderTool, Role,
    ToolSpec, TurnMessage,
};
use argusx::chat::storage::{ConversationRecord, StoredConversationMessage};
use argusx::protocol::{Builtin, BuiltinToolCall, McpCall, McpCallType, ToolCall};

fn spec(name: &str) -> ToolSpec {
    ToolSpec {
        name: name.to_string(),
        description: format!("the {name} tool"),
        input_schema_json: "{\"type\":\"object\"}".to_string(),
    }
}

/// The read-only tools a runner offers: read, glob, grep and the plan tool.
fn read_only_tools() -> Vec<ProviderTool> {
    ["read", "glob", "grep", "update_plan"].iter().map(|n| to_provider_tool(&spec(n))).collect()
}

fn runner() -> ProviderModelRunner {
    ProviderModelRunner::new("gpt-test".to_string(), read_only_tools())
}

fn step(messages: Vec<TurnMessage>, step_index: u32, allow_tools: bool) -> LlmStepRequest {
    LlmStepRequest {
        session_id: "session-1".into(),
        turn_id: "turn-1".into(),
        step_index,
        messages,
        allow_tools,
    }
}

#[test]
fn build_request_maps_turn_messages() {
    let request = step(
        vec![
            TurnMessage::User { content: "read file".into() },
            TurnMessage::AssistantToolCalls {
                content: None,
                calls: vec![ToolCall::Builtin(BuiltinToolCall {
                    sequence: 0,
                    call_id: "call-1".into(),
                    builtin: Builtin::Read,
                    arguments_json: r#"{"path":"Cargo.toml"}"#.into(),
                })],
            },
            TurnMessage::ToolResult {
                call_id: "call-1".into(),
                tool_name: "read".into(),
                content: r#"{"content":"ok"}"#.into(),
                is_error: false,
            },
        ],
        1,
        false,
    );

    let built = runner().build_request(&request);

    assert_eq!(built.model, "gpt-test");
    assert_eq!(built.messages.len(), 3);
    assert!(matches!(built.messages[0].role, Role::User));
    assert!(matches!(built.messages[1].role, Role::Assistant));
    assert_eq!(built.messages[1].tool_calls.as_ref().unwrap()[0].id, "call-1");
    assert!(matches!(built.messages[2].role, Role::Tool));
    assert_eq!(built.messages[2].tool_call_id.as_deref(), Some("call-1"));
}

#[test]
fn build_request_includes_read_only_tools_when_allowed() {
    let request = step(vec![TurnMessage::User { content: "find toml".into() }], 0, true);
    let built = runner().build_request(&request);
    let tools = built.tools.expect("tools should be present");

    assert_eq!(tools.len(), 4);
    assert_eq!(tools[0].function.name, "read");
    assert_eq!(tools[1].function.name, "glob");
    assert_eq!(tools[2].function.name, "grep");
    assert_eq!(tools[3].function.name, "update_plan");
    assert_eq!(built.tool_choice.as_deref(), Some("auto"));
    assert_eq!(built.parallel_tool_calls, Some(true));
}

#[test]
fn build_request_includes_update_plan_tool_when_allowed() {
    let request = step(vec![TurnMessage::User { content: "keep a plan".into() }], 0, true);
    let built = runner().build_request(&request);
    let tools = built.tools.expect("tools should be present");

    assert!(tools.iter().any(|tool| tool.function.name == "update_plan"));
}

#[test]
fn build_request_without_tools_offers_none() {
    let built = runner().build_request(&step(vec![], 0, false));
    assert!(built.tools.is_none());
    assert!(built.tool_choice.is_none());
    assert!(built.parallel_tool_calls.is_none());
    assert_eq!(built.stream, Some(true));
}

#[test]
fn tool_results_and_notes_keep_their_texts() {
    let m = map_message(&TurnMessage::ToolResult {
        call_id: "c".into(),
        tool_name: "grep".into(),
        content: "hits".into(),
        is_error: true,
    });
    assert_eq!(m.role, Role::Tool);
    assert_eq!(m.name.as_deref(), Some("grep"));
    assert_eq!(m.content.as_deref(), Some("hits"));
    let m = map_message(&TurnMessage::SystemNote { content: "note".into() });
    assert_eq!(m.role, Role::System);
    assert!(m.tool_calls.is_none());

    let mcp = ToolCall::Mcp(McpCall {
        sequence: 1,
        id: "m1".into(),
        mcp_type: McpCallType::McpCall,
        server_label: None,
        name: None,
        arguments_json: None,
        output_json: None,
        tools_json: None,
        error: None,
    });
    let m = map_message(&TurnMessage::AssistantToolCalls { content: Some("x".into()), calls: vec![mcp] });
    let call = &m.tool_calls.unwrap()[0];
    assert_eq!(call.type_, "function");
    assert_eq!(call.function.name, "");
    assert_eq!(call.function.arguments, "{}");
}

#[test]
fn dialect_names_are_read_trimmed_and_without_case() {
    assert_eq!(parse_dialect(" OpenAI "), Ok(Dialect::Openai));
    assert_eq!(parse_dialect("zai"), Ok(Dialect::Zai));
    assert_eq!(
        parse_dialect(" Anthropic "),
        Err(TurnError::Runtime("unsupported ARGUSX_PROVIDER_DIALECT `anthropic`".into()))
    );
}

#[test]
fn stored_messages_restore_the_history() {
    let history = vec![
        TurnMessage::User { content: "hi".into() },
        TurnMessage::AssistantToolCalls {
            content: None,
            calls: vec![ToolCall::Builtin(BuiltinToolCall {
                sequence: 2,
                call_id: "c1".into(),
                builtin: Builtin::Glob,
                arguments_json: "{}".into(),
            })],
        },
        TurnMessage::ToolResult { call_id: "c1".into(), tool_name: "glob".into(), content: "[]".into(), is_error: false },
        TurnMessage::AssistantText { content: "done".into() },
    ];
    let record = ConversationRecord::from_snapshot("c".into(), TurnTargetKind::Agent, "agent".into(), &history, 5);
    assert_eq!(record.history.len(), 4);
    assert!(matches!(record.history[1], StoredConversationMessage::AssistantToolCalls { .. }));
    assert_eq!(record.to_snapshot(), history);
}

fn some(s: &str) -> Option<String> {
    Some(s.to_string())
}

#[test]
fn provider_settings_select_a_live_connection() {
    let (model, c) = connection_from_settings(some(" gpt-5 "), None, None, some(" https://api.test/v1 "), some("sk"))
        .expect("configured");
    assert_eq!(model, "gpt-5");
    assert_eq!(c.dialect, Dialect::Openai);
    assert_eq!(c.base_url, "https://api.test/v1");
    assert_eq!(c.api_key, "sk");
    assert_eq!(c.replay_file, None);
}

#[test]
fn provider_settings_select_a_replay() {
    let (_, c) = connection_from_settings(some("m"), some("ZAI"), some("fixture.sse"), None, None).expect("replay");
    assert_eq!(c.dialect, Dialect::Zai);
    assert_eq!(c.base_url, "http://unused");
    assert_eq!(c.api_key, "test-key");
    assert_eq!(c.replay_file.as_deref(), Some("fixture.sse"));
}

#[test]
fn provider_settings_refuse_what_is_missing_or_unknown() {
    let missing = |e: TurnError| match e {
        TurnError::Runtime(m) => m,
    };
    assert_eq!(
        missing(connection_from_settings(some("  "), None, None, None, None).unwrap_err()),
        "missing env var ARGUSX_MODEL"
    );
    assert_eq!(
        missing(connection_from_settings(some("m"), some("x"), None, None, None).unwrap_err()),
        "unsupported ARGUSX_PROVIDER_DIALECT `x`"
    );
    assert_eq!(
        missing(connection_from_settings(some("m"), None, some(""), None, some("k")).unwrap_err()),
        "missing env var ARGUSX_PROVIDER_BASE_URL"
    );
    assert_eq!(
        missing(connection_from_settings(some("m"), None, None, some("u"), None).unwrap_err()),
        "missing env var ARGUSX_PROVIDER_API_KEY"
    );
}
