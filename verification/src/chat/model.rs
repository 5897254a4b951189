//! What a model step asks its provider: the conversation's messages in the
//! chat-completions shape, and, where the step may call tools, the tools on
//! offer.
use vstd::prelude::*;

use crate::chat::error::TurnError;
use crate::chat::mapper::{arguments_of, call_id_of, tool_arguments_json, tool_call_id, tool_name, tool_name_of};
use crate::protocol::ToolCall;
use crate::text::{ascii_lower_seq, owned, push_str, str_eq, to_ascii_lowercase, trim, trim_str};

verus! {

/// A message of a running conversation.
#[derive(Debug, Clone, PartialEq, Eq)]
pub enum TurnMessage {
    User { content: String },
    AssistantText { content: String },
    AssistantToolCalls { content: Option<String>, calls: Vec<ToolCall> },
    ToolResult { call_id: String, tool_name: String, content: String, is_error: bool },
    SystemNote { content: String },
}

/// The content of a conversation message, its tool calls as a sequence.
pub enum TurnMessageView {
    User { content: String },
    AssistantText { content: String },
    AssistantToolCalls { content: Option<String>, calls: Seq<ToolCall> },
    ToolResult { call_id: String, tool_name: String, content: String, is_error: bool },
    SystemNote { content: String },
}

impl View for TurnMessage {
    type V = TurnMessageView;

    open spec fn view(&self) -> TurnMessageView {
        match *self {
            TurnMessage::User { content } => TurnMessageView::User { content },
            TurnMessage::AssistantText { content } => TurnMessageView::AssistantText { content },
            TurnMessage::AssistantToolCalls { content, calls } => TurnMessageView::AssistantToolCalls {
                content,
                calls: calls@,
            },
            TurnMessage::ToolResult { call_id, tool_name, content, is_error } => TurnMessageView::ToolResult {
                call_id,
                tool_name,
                content,
                is_error,
            },
            TurnMessage::SystemNote { content } => TurnMessageView::SystemNote { content },
        }
    }
}

/// Who speaks a chat message.
#[derive(Debug, Clone, Copy, PartialEq, Eq, Structural)]
pub enum Role {
    System,
    User,
    Assistant,
    Tool,
}

/// The function a provider tool call invokes, with its JSON arguments.
#[derive(Debug, Clone, PartialEq, Eq)]
pub struct FunctionCall {
    pub name: String,
    pub arguments: String,
}

/// A tool call as a provider writes it.
#[derive(Debug, Clone, PartialEq, Eq)]
pub struct ProviderToolCall {
    pub id: String,
    pub type_: String,
    pub function: FunctionCall,
}

/// A message of a chat-completions request.
#[derive(Debug, Clone, PartialEq, Eq)]
pub struct ChatMessage {
    pub role: Role,
    pub content: Option<String>,
    pub name: Option<String>,
    pub tool_calls: Option<Vec<ProviderToolCall>>,
    pub tool_call_id: Option<String>,
}

/// Whether `p` is call `call` as a provider writes it: a function call with
/// the call's id, tool name and JSON arguments.
pub open spec fn is_provider_call(call: ToolCall, p: ProviderToolCall) -> bool {
    &&& p.id@ == call_id_of(call)
    &&& p.type_@ == "function"@
    &&& p.function.name@ == tool_name_of(call)
    &&& p.function.arguments@ == arguments_of(call)
}

/// A function call of a provider.
pub fn provider_tool_call(call_id: &str, name: &str, arguments_json: &str) -> (r: ProviderToolCall)
    ensures
        r.id@ == call_id@,
        r.type_@ == "function"@,
        r.function.name@ == name@,
        r.function.arguments@ == arguments_json@,
{
    ProviderToolCall {
        id: owned(call_id),
        type_: owned("function"),
        function: FunctionCall { name: owned(name), arguments: owned(arguments_json) },
    }
}

/// A tool call as a provider writes it.
pub fn map_tool_call(call: &ToolCall) -> (r: ProviderToolCall)
    ensures
        is_provider_call(*call, r),
{
    provider_tool_call(tool_call_id(call), tool_name(call), tool_arguments_json(call))
}

/// Whether `o` holds the text `t`, or nothing where `t` is `None`.
pub open spec fn opt_text(o: Option<String>, t: Option<Seq<char>>) -> bool {
    match t {
        Some(s) => o matches Some(x) && x@ == s,
        None => o is None,
    }
}

/// The text of an optional string.
pub open spec fn text_of(o: Option<String>) -> Option<Seq<char>> {
    match o {
        Some(s) => Some(s@),
        None => None,
    }
}

/// Whether `c` is message `m` in the chat-completions shape: its role and
/// content; a tool result also names its tool and call, and the tool calls
/// of an assistant are carried one for one.
pub open spec fn is_chat_message(m: TurnMessage, c: ChatMessage) -> bool {
    match m {
        TurnMessage::User { content } => c.role == Role::User && opt_text(c.content, Some(content@))
            && c.name is None && c.tool_calls is None && c.tool_call_id is None,
        TurnMessage::AssistantText { content } => c.role == Role::Assistant && opt_text(
            c.content,
            Some(content@),
        ) && c.name is None && c.tool_calls is None && c.tool_call_id is None,
        TurnMessage::AssistantToolCalls { content, calls } => {
            &&& c.role == Role::Assistant
            &&& opt_text(c.content, text_of(content))
            &&& c.name is None
            &&& c.tool_call_id is None
            &&& c.tool_calls matches Some(pcs) && pcs@.len() == calls@.len() && forall|i: int|
                0 <= i < calls@.len() ==> is_provider_call(calls@[i], #[trigger] pcs@[i])
        },
        TurnMessage::ToolResult { call_id, tool_name, content, .. } => c.role == Role::Tool && opt_text(
            c.content,
            Some(content@),
        ) && opt_text(c.name, Some(tool_name@)) && c.tool_calls is None && opt_text(
            c.tool_call_id,
            Some(call_id@),
        ),
        TurnMessage::SystemNote { content } => c.role == Role::System && opt_text(c.content, Some(content@))
            && c.name is None && c.tool_calls is None && c.tool_call_id is None,
    }
}

fn plain_message(role: Role, content: &String) -> (r: ChatMessage)
    ensures
        r.role == role,
        opt_text(r.content, Some(content@)),
        r.name is None,
        r.tool_calls is None,
        r.tool_call_id is None,
{
    ChatMessage { role, content: Some(owned(content.as_str())), name: None, tool_calls: None, tool_call_id: None }
}

/// A conversation message in the chat-completions shape.
pub fn map_message(message: &TurnMessage) -> (r: ChatMessage)
    ensures
        is_chat_message(*message, r),
{
    match message {
        TurnMessage::User { content } => plain_message(Role::User, content),
        TurnMessage::AssistantText { content } => plain_message(Role::Assistant, content),
        TurnMessage::AssistantToolCalls { content, calls } => {
            let mut mapped: Vec<ProviderToolCall> = Vec::new();
            let mut i: usize = 0;
            while i < calls.len()
                invariant
                    i <= calls@.len(),
                    mapped@.len() == i,
                    forall|k: int| 0 <= k < i ==> is_provider_call(calls@[k], #[trigger] mapped@[k]),
                decreases calls@.len() - i,
            {
                mapped.push(map_tool_call(&calls[i]));
                i = i + 1;
            }
            ChatMessage {
                role: Role::Assistant,
                content: match content {
                    Some(c) => Some(owned(c.as_str())),
                    None => None,
                },
                name: None,
                tool_calls: Some(mapped),
                tool_call_id: None,
            }
        },
        TurnMessage::ToolResult { call_id, tool_name, content, .. } => ChatMessage {
            role: Role::Tool,
            content: Some(owned(content.as_str())),
            name: Some(owned(tool_name.as_str())),
            tool_calls: None,
            tool_call_id: Some(owned(call_id.as_str())),
        },
        TurnMessage::SystemNote { content } => plain_message(Role::System, content),
    }
}

/// Whether `out` is `messages` in the chat-completions shape, one for one.
pub open spec fn are_chat_messages(messages: Seq<TurnMessage>, out: Seq<ChatMessage>) -> bool {
    out.len() == messages.len() && forall|i: int|
        0 <= i < messages.len() ==> is_chat_message(messages[i], #[trigger] out[i])
}

/// The conversation's messages in the chat-completions shape.
pub fn map_messages(messages: &Vec<TurnMessage>) -> (r: Vec<ChatMessage>)
    ensures
        are_chat_messages(messages@, r@),
{
    let mut out: Vec<ChatMessage> = Vec::new();
    let mut i: usize = 0;
    while i < messages.len()
        invariant
            i <= messages@.len(),
            out@.len() == i,
            forall|k: int| 0 <= k < i ==> is_chat_message(messages@[k], #[trigger] out@[k]),
        decreases messages@.len() - i,
    {
        out.push(map_message(&messages[i]));
        i = i + 1;
    }
    out
}

/// What a tool says of itself: its name, description and JSON input schema.
#[derive(Debug, Clone, PartialEq, Eq)]
pub struct ToolSpec {
    pub name: String,
    pub description: String,
    pub input_schema_json: String,
}

/// A function a provider may call: its name, description and JSON
/// parameter schema.
#[derive(Debug, Clone, PartialEq, Eq)]
pub struct FunctionDefinition {
    pub name: String,
    pub description: Option<String>,
    pub parameters_json: String,
}

/// A tool as a provider is offered it.
#[derive(Debug, Clone, PartialEq, Eq)]
pub struct ProviderTool {
    pub type_: String,
    pub function: FunctionDefinition,
}

impl ProviderTool {
    /// A copy of this tool.
    pub fn duplicate(&self) -> (r: ProviderTool)
        ensures
            r == *self,
    {
        ProviderTool {
            type_: self.type_.clone(),
            function: FunctionDefinition {
                name: self.function.name.clone(),
                description: match &self.function.description {
                    Some(d) => Some(d.clone()),
                    None => None,
                },
                parameters_json: self.function.parameters_json.clone(),
            },
        }
    }
}

/// A tool offered to a provider as a function: its name, description and
/// input schema.
pub fn to_provider_tool(spec: &ToolSpec) -> (r: ProviderTool)
    ensures
        r.type_@ == "function"@,
        r.function.name@ == spec.name@,
        opt_text(r.function.description, Some(spec.description@)),
        r.function.parameters_json@ == spec.input_schema_json@,
{
    ProviderTool {
        type_: owned("function"),
        function: FunctionDefinition {
            name: owned(spec.name.as_str()),
            description: Some(owned(spec.description.as_str())),
            parameters_json: owned(spec.input_schema_json.as_str()),
        },
    }
}

/// One step of a turn: its conversation, turn and index, the messages so
/// far, and whether the model may call tools.
#[derive(Debug, Clone, PartialEq, Eq)]
pub struct LlmStepRequest {
    pub session_id: String,
    pub turn_id: String,
    pub step_index: u32,
    pub messages: Vec<TurnMessage>,
    pub allow_tools: bool,
}

/// A streamed chat-completions request.
#[derive(Debug, Clone, PartialEq, Eq)]
pub struct ChatCompletionsRequest {
    pub model: String,
    pub messages: Vec<ChatMessage>,
    pub stream: Option<bool>,
    pub tools: Option<Vec<ProviderTool>>,
    pub tool_choice: Option<String>,
    pub parallel_tool_calls: Option<bool>,
}

/// The model a provider runs turns with, and the tools it offers.
#[derive(Debug)]
pub struct ProviderModelRunner {
    model: String,
    tools: Vec<ProviderTool>,
}

impl ProviderModelRunner {
    /// The model asked.
    pub closed spec fn model_name(&self) -> Seq<char> {
        self.model@
    }

    /// The tools offered where a step may call tools.
    pub closed spec fn offered(&self) -> Seq<ProviderTool> {
        self.tools@
    }

    /// A runner asking `model`, offering `tools`.
    pub fn new(model: String, tools: Vec<ProviderTool>) -> (r: ProviderModelRunner)
        ensures
            r.model_name() == model@,
            r.offered() == tools@,
    {
        ProviderModelRunner { model, tools }
    }

    /// The request of a step: the model, the messages in the
    /// chat-completions shape, streamed; where the step may call tools, the
    /// tools on offer, chosen freely and in parallel.
    pub fn build_request(&self, request: &LlmStepRequest) -> (r: ChatCompletionsRequest)
        ensures
            r.model@ == self.model_name(),
            are_chat_messages(request.messages@, r.messages@),
            r.stream == Some(true),
            request.allow_tools ==> (r.tools matches Some(ts) && ts@ == self.offered()),
            !request.allow_tools ==> r.tools is None,
            request.allow_tools ==> opt_text(r.tool_choice, Some("auto"@)),
            !request.allow_tools ==> r.tool_choice is None,
            r.parallel_tool_calls == if request.allow_tools {
                Some(true)
            } else {
                None::<bool>
            },
    {
        let messages = map_messages(&request.messages);
        if request.allow_tools {
            let mut tools: Vec<ProviderTool> = Vec::new();
            let mut i: usize = 0;
            while i < self.tools.len()
                invariant
                    i <= self.tools@.len(),
                    tools@ == self.tools@.subrange(0, i as int),
                decreases self.tools@.len() - i,
            {
                tools.push(self.tools[i].duplicate());
                i = i + 1;
                assert(tools@ =~= self.tools@.subrange(0, i as int));
            }
            assert(self.tools@.subrange(0, self.tools@.len() as int) =~= self.tools@);
            ChatCompletionsRequest {
                model: owned(self.model.as_str()),
                messages,
                stream: Some(true),
                tools: Some(tools),
                tool_choice: Some(owned("auto")),
                parallel_tool_calls: Some(true),
            }
        } else {
            ChatCompletionsRequest {
                model: owned(self.model.as_str()),
                messages,
                stream: Some(true),
                tools: None,
                tool_choice: None,
                parallel_tool_calls: None,
            }
        }
    }
}

/// The wire dialects a provider may speak.
#[derive(Debug, Clone, Copy, PartialEq, Eq, Structural)]
pub enum Dialect {
    Openai,
    Zai,
}

/// The message of an unknown dialect name.
pub open spec fn unsupported_dialect_message(name: Seq<char>) -> Seq<char> {
    "unsupported ARGUSX_PROVIDER_DIALECT `"@ + name + "`"@
}

/// The dialect a configured name selects, read trimmed and without case.
pub fn parse_dialect(raw: &str) -> (r: Result<Dialect, TurnError>)
    ensures
        ascii_lower_seq(trim(raw@)) == "openai"@ ==> r == Ok::<Dialect, TurnError>(Dialect::Openai),
        ascii_lower_seq(trim(raw@)) == "zai"@ ==> r == Ok::<Dialect, TurnError>(Dialect::Zai),
        ascii_lower_seq(trim(raw@)) != "openai"@ && ascii_lower_seq(trim(raw@)) != "zai"@ ==> (r matches Err(
            TurnError::Runtime(m),
        ) && m@ == unsupported_dialect_message(ascii_lower_seq(trim(raw@)))),
{
    let trimmed = trim_str(raw);
    let name = to_ascii_lowercase(trimmed.as_str());
    proof {
        reveal_strlit("openai");
        reveal_strlit("zai");
        assert("openai"@.len() != "zai"@.len());
    }
    if str_eq(name.as_str(), "openai") {
        Ok(Dialect::Openai)
    } else if str_eq(name.as_str(), "zai") {
        Ok(Dialect::Zai)
    } else {
        let mut m = owned("unsupported ARGUSX_PROVIDER_DIALECT `");
        push_str(&mut m, name.as_str());
        push_str(&mut m, "`");
        Err(TurnError::Runtime(m))
    }
}


/// Where and how a provider is asked: its dialect, base URL and API key,
/// and the file of recorded answers to replay instead, if any.
#[derive(Debug, Clone, PartialEq, Eq)]
pub struct ProviderConnection {
    pub dialect: Dialect,
    pub base_url: String,
    pub api_key: String,
    pub replay_file: Option<String>,
}

/// A configured value as read: trimmed, and absent when blank.
pub open spec fn setting_of(raw: Option<String>) -> Option<Seq<char>> {
    match raw {
        Some(v) => if trim(v@).len() > 0 {
            Some(trim(v@))
        } else {
            None
        },
        None => None,
    }
}

/// A configured value, trimmed; a blank one counts as unset.
pub fn optional_setting(raw: Option<String>) -> (r: Option<String>)
    ensures
        opt_text(r, setting_of(raw)),
{
    match raw {
        Some(v) => {
            let t = trim_str(v.as_str());
            if t.as_str().is_empty() {
                None
            } else {
                Some(t)
            }
        },
        None => None,
    }
}

/// The message of a missing setting.
pub open spec fn missing_setting_message(name: Seq<char>) -> Seq<char> {
    "missing env var "@ + name
}

/// A setting that must be given: its trimmed value, or an error naming it.
pub fn required_setting(name: &str, raw: Option<String>) -> (r: Result<String, TurnError>)
    ensures
        setting_of(raw) matches Some(v) ==> (r matches Ok(s) && s@ == v),
        setting_of(raw) is None ==> (r matches Err(TurnError::Runtime(m)) && m@ == missing_setting_message(
            name@,
        )),
{
    match optional_setting(raw) {
        Some(v) => Ok(v),
        None => {
            let mut m = owned("missing env var ");
            push_str(&mut m, name);
            Err(TurnError::Runtime(m))
        },
    }
}

/// The connection that replays the recorded answers in `path`.
pub fn replay_connection(dialect: Dialect, path: String) -> (r: ProviderConnection)
    ensures
        r.dialect == dialect,
        r.base_url@ == "http://unused"@,
        r.api_key@ == "test-key"@,
        r.replay_file == Some(path),
{
    ProviderConnection {
        dialect,
        base_url: owned("http://unused"),
        api_key: owned("test-key"),
        replay_file: Some(path),
    }
}

/// The model and connection the settings `ARGUSX_MODEL`,
/// `ARGUSX_PROVIDER_DIALECT` (OpenAI by default),
/// `ARGUSX_PROVIDER_REPLAY_FILE`, and, without a replay file,
/// `ARGUSX_PROVIDER_BASE_URL` and `ARGUSX_PROVIDER_API_KEY` select; each
/// value trimmed, a blank one unset. The first missing or unknown setting,
/// in that order, is refused.
pub fn connection_from_settings(
    model: Option<String>,
    dialect: Option<String>,
    replay_file: Option<String>,
    base_url: Option<String>,
    api_key: Option<String>,
) -> (r: Result<(String, ProviderConnection), TurnError>)
    ensures
        setting_of(model) is None ==> (r matches Err(TurnError::Runtime(m)) && m@
            == missing_setting_message("ARGUSX_MODEL"@)),
        setting_of(model) is Some && (setting_of(dialect) matches Some(d) && ascii_lower_seq(trim(d))
            != "openai"@ && ascii_lower_seq(trim(d)) != "zai"@) ==> (r matches Err(TurnError::Runtime(m))
            && m@ == unsupported_dialect_message(ascii_lower_seq(trim(setting_of(dialect)->0)))),
        r matches Ok(p) ==> {
            &&& setting_of(model) == Some(p.0@)
            &&& p.1.dialect == match setting_of(dialect) {
                Some(d) => if ascii_lower_seq(trim(d)) == "zai"@ {
                    Dialect::Zai
                } else {
                    Dialect::Openai
                },
                None => Dialect::Openai,
            }
            &&& match setting_of(replay_file) {
                Some(path) => p.1.replay_file matches Some(f) && f@ == path && p.1.base_url@
                    == "http://unused"@ && p.1.api_key@ == "test-key"@,
                None => p.1.replay_file is None && setting_of(base_url) == Some(p.1.base_url@)
                    && setting_of(api_key) == Some(p.1.api_key@),
            }
        },
        setting_of(model) is Some && (setting_of(dialect) matches Some(d) ==> (ascii_lower_seq(trim(d))
            == "openai"@ || ascii_lower_seq(trim(d)) == "zai"@)) && (setting_of(replay_file) is Some || (
        setting_of(base_url) is Some && setting_of(api_key) is Some)) ==> r is Ok,
{
    let model = match required_setting("ARGUSX_MODEL", model) {
        Ok(m) => m,
        Err(e) => {
            return Err(e);
        },
    };
    let dialect = match optional_setting(dialect) {
        Some(raw) => match parse_dialect(raw.as_str()) {
            Ok(d) => d,
            Err(e) => {
                return Err(e);
            },
        },
        None => Dialect::Openai,
    };
    match optional_setting(replay_file) {
        Some(path) => Ok((model, replay_connection(dialect, path))),
        None => {
            let base_url = match required_setting("ARGUSX_PROVIDER_BASE_URL", base_url) {
                Ok(b) => b,
                Err(e) => {
                    return Err(e);
                },
            };
            let api_key = match required_setting("ARGUSX_PROVIDER_API_KEY", api_key) {
                Ok(k) => k,
                Err(e) => {
                    return Err(e);
                },
            };
            Ok((model, ProviderConnection { dialect, base_url, api_key, replay_file: None }))
        },
    }
}

} // verus!
