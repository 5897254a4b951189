//! The model-response protocol: streamed response events, tool calls, finish
//! reasons, and the contract that a response stream ends with exactly one
//! terminal event.
use std::sync::Arc;
use vstd::prelude::*;

use crate::text::str_eq;

verus! {

/// Metadata of a created response.
#[derive(Debug, Clone, PartialEq, Eq)]
pub struct Meta {
    pub id: String,
    pub created: i64,
    pub object: String,
    pub model: String,
}

/// A tool call requested by the model.
#[derive(Debug, Clone, PartialEq, Eq)]
pub enum ToolCall {
    FunctionCall { sequence: u32, call_id: String, name: String, arguments_json: String },
    Builtin(BuiltinToolCall),
    Mcp(McpCall),
}

/// A call of one of the built-in tools.
#[derive(Debug, Clone, PartialEq, Eq)]
pub struct BuiltinToolCall {
    pub sequence: u32,
    pub call_id: String,
    pub builtin: Builtin,
    pub arguments_json: String,
}

/// The built-in tools.
#[derive(Debug, Clone, PartialEq, Eq)]
pub enum Builtin {
    Read,
    Glob,
    Grep,
    UpdatePlan,
    Shell,
    DomainCookies,
    Git,
    Unknown(String),
}

/// The canonical wire name of a built-in tool.
pub open spec fn builtin_name(b: Builtin) -> Seq<char> {
    match b {
        Builtin::Read => "read"@,
        Builtin::Glob => "glob"@,
        Builtin::Grep => "grep"@,
        Builtin::UpdatePlan => "update_plan"@,
        Builtin::Shell => "shell"@,
        Builtin::DomainCookies => "domain_cookies"@,
        Builtin::Git => "git"@,
        Builtin::Unknown(name) => name@,
    }
}

/// The built-in tool that a wire name denotes, if it is one of the known names.
pub open spec fn builtin_from_name(name: Seq<char>) -> Option<Builtin> {
    if name == "read"@ {
        Some(Builtin::Read)
    } else if name == "glob"@ {
        Some(Builtin::Glob)
    } else if name == "grep"@ {
        Some(Builtin::Grep)
    } else if name == "update_plan"@ {
        Some(Builtin::UpdatePlan)
    } else if name == "shell"@ {
        Some(Builtin::Shell)
    } else if name == "domain_cookies"@ {
        Some(Builtin::DomainCookies)
    } else if name == "git"@ {
        Some(Builtin::Git)
    } else {
        None
    }
}

impl Builtin {
    /// The canonical wire name of this tool; an unknown tool keeps its own name.
    pub fn canonical_name(&self) -> (r: &str)
        ensures
            r@ == builtin_name(*self),
    {
        match self {
            Builtin::Read => "read",
            Builtin::Glob => "glob",
            Builtin::Grep => "grep",
            Builtin::UpdatePlan => "update_plan",
            Builtin::Shell => "shell",
            Builtin::DomainCookies => "domain_cookies",
            Builtin::Git => "git",
            Builtin::Unknown(name) => name.as_str(),
        }
    }

    /// The known built-in tool with the wire name `name`, or `None`.
    pub fn from_name(name: &str) -> (r: Option<Builtin>)
        ensures
            r == builtin_from_name(name@),
    {
        if str_eq(name, "read") {
            Some(Builtin::Read)
        } else if str_eq(name, "glob") {
            Some(Builtin::Glob)
        } else if str_eq(name, "grep") {
            Some(Builtin::Grep)
        } else if str_eq(name, "update_plan") {
            Some(Builtin::UpdatePlan)
        } else if str_eq(name, "shell") {
            Some(Builtin::Shell)
        } else if str_eq(name, "domain_cookies") {
            Some(Builtin::DomainCookies)
        } else if str_eq(name, "git") {
            Some(Builtin::Git)
        } else {
            None
        }
    }
}

/// Naming a known built-in tool and reading the name back gives the same tool;
/// an unknown tool's name is read back as a known tool exactly when it spells
/// one of the known names.
pub proof fn lemma_builtin_name_roundtrip(b: Builtin)
    ensures
        !(b is Unknown) ==> builtin_from_name(builtin_name(b)) == Some(b),
        b is Unknown ==> (builtin_from_name(builtin_name(b)) is None <==> !is_known_builtin_name(
            builtin_name(b),
        )),
{
    reveal_strlit("read");
    reveal_strlit("glob");
    reveal_strlit("grep");
    reveal_strlit("update_plan");
    reveal_strlit("shell");
    reveal_strlit("domain_cookies");
    reveal_strlit("git");
    assert("read"@[0] == 'r');
    assert("glob"@[0] == 'g' && "glob"@[1] == 'l');
    assert("grep"@[0] == 'g' && "grep"@[1] == 'r');
    assert("update_plan"@[0] == 'u');
    assert("shell"@[0] == 's');
    assert("domain_cookies"@[0] == 'd');
    assert("git"@[0] == 'g' && "git"@[1] == 'i');
}

/// Whether `name` is the wire name of one of the known built-in tools.
pub open spec fn is_known_builtin_name(name: Seq<char>) -> bool {
    builtin_from_name(name) is Some
}

/// An alias kept for callers that name the MCP call shape after its origin.
pub type ZaiMcpCall = McpCall;

/// An alias kept for callers that name the MCP call kind after its origin.
pub type ZaiMcpType = McpCallType;

/// A call routed to an MCP server.
#[derive(Debug, Clone, PartialEq, Eq)]
pub struct McpCall {
    pub sequence: u32,
    pub id: String,
    pub mcp_type: McpCallType,
    pub server_label: Option<String>,
    pub name: Option<String>,
    pub arguments_json: Option<String>,
    pub output_json: Option<String>,
    pub tools_json: Option<String>,
    pub error: Option<String>,
}

/// The kind of an MCP call.
#[derive(Debug, Clone, PartialEq, Eq)]
pub enum McpCallType {
    McpListTools,
    McpCall,
    Unknown(String),
}

/// Token accounting of a response.
#[derive(Debug, Clone, Copy, PartialEq, Eq)]
pub struct Usage {
    pub input_tokens: u64,
    pub output_tokens: u64,
    pub total_tokens: u64,
}

impl Usage {
    /// Usage with every count at zero.
    pub fn zero() -> (u: Usage)
        ensures
            u.input_tokens == 0,
            u.output_tokens == 0,
            u.total_tokens == 0,
    {
        Usage { input_tokens: 0, output_tokens: 0, total_tokens: 0 }
    }
}

/// Why a response finished.
#[derive(Debug, Clone, PartialEq, Eq)]
pub enum FinishReason {
    Stop,
    ToolCalls,
    Length,
    Cancelled,
    Unknown(String),
}

/// The wire spelling of a finish reason.
pub open spec fn finish_reason_wire(r: FinishReason) -> Seq<char> {
    match r {
        FinishReason::Stop => "stop"@,
        FinishReason::ToolCalls => "tool_calls"@,
        FinishReason::Length => "length"@,
        FinishReason::Cancelled => "cancelled"@,
        FinishReason::Unknown(s) => s@,
    }
}

/// Whether `s` is one of the four known finish-reason spellings.
pub open spec fn is_known_finish_wire(s: Seq<char>) -> bool {
    s == "stop"@ || s == "tool_calls"@ || s == "length"@ || s == "cancelled"@
}

impl FinishReason {
    /// The finish reason spelled `reason` on the wire; other spellings are kept
    /// verbatim as `Unknown`.
    pub fn from_wire(reason: &str) -> (r: FinishReason)
        ensures
            finish_reason_wire(r) == reason@,
            r is Unknown <==> !is_known_finish_wire(reason@),
    {
        if str_eq(reason, "stop") {
            FinishReason::Stop
        } else if str_eq(reason, "tool_calls") {
            FinishReason::ToolCalls
        } else if str_eq(reason, "length") {
            FinishReason::Length
        } else if str_eq(reason, "cancelled") {
            FinishReason::Cancelled
        } else {
            FinishReason::Unknown(crate::text::owned(reason))
        }
    }
}

/// A response error carrying its message.
#[derive(Debug, Clone, PartialEq, Eq)]
pub struct Error {
    pub message: String,
}

impl From<String> for Error {
    fn from(message: String) -> (r: Error) {
        Error { message }
    }
}

impl vstd::std_specs::convert::FromSpecImpl<String> for Error {
    open spec fn obeys_from_spec() -> bool {
        true
    }

    open spec fn from_spec(v: String) -> Error {
        Error { message: v }
    }
}

impl<'a> From<&'a str> for Error {
    fn from(message: &'a str) -> (r: Error)
        ensures
            r.message@ == message@,
    {
        Error { message: crate::text::owned(message) }
    }
}

impl<'a> vstd::std_specs::convert::FromSpecImpl<&'a str> for Error {
    open spec fn obeys_from_spec() -> bool {
        false
    }

    open spec fn from_spec(v: &'a str) -> Error {
        arbitrary()
    }
}

/// One event of a streamed model response.
#[derive(Debug, Clone, PartialEq, Eq)]
pub enum ResponseEvent {
    Created(Meta),
    ContentDelta(Arc<str>),
    ReasoningDelta(Arc<str>),
    ToolDelta(Arc<str>),
    ContentDone(String),
    ReasoningDone(String),
    ToolDone(ToolCall),
    Done { reason: FinishReason, usage: Option<Usage> },
    Error(Error),
}

/// Whether an event ends a response.
pub open spec fn is_terminal(e: ResponseEvent) -> bool {
    e is Done || e is Error
}

/// Why the contract refused an event.
#[derive(Debug, Clone, Copy, PartialEq, Eq)]
pub enum ContractError {
    AfterTerminal,
}

/// Tracks a response stream and refuses every event that follows its
/// terminal event.
#[derive(Debug)]
pub struct ResponseContract {
    terminated: bool,
}

/// One step of the contract: from whether the stream has terminated and an
/// event, whether the event is accepted and whether the stream has terminated
/// afterwards.
pub open spec fn contract_step(terminated: bool, e: ResponseEvent) -> (bool, bool) {
    if terminated {
        (false, true)
    } else {
        (true, is_terminal(e))
    }
}

/// The acceptance of each event of `events` fed in order to a contract whose
/// state is `terminated`.
pub open spec fn contract_run(terminated: bool, events: Seq<ResponseEvent>) -> Seq<bool>
    decreases events.len(),
{
    if events.len() == 0 {
        Seq::empty()
    } else {
        let (ok, next) = contract_step(terminated, events[0]);
        seq![ok] + contract_run(next, events.subrange(1, events.len() as int))
    }
}

impl View for ResponseContract {
    type V = bool;

    /// Whether the stream has seen its terminal event.
    closed spec fn view(&self) -> bool {
        self.terminated
    }
}

impl ResponseContract {
    /// A contract for a stream that has not terminated.
    pub fn new() -> (c: ResponseContract)
        ensures
            c@ == false,
    {
        ResponseContract { terminated: false }
    }

    /// Accepts `event` unless the stream has already terminated; a `Done` or
    /// `Error` event terminates it.
    pub fn accept(&mut self, event: &ResponseEvent) -> (r: Result<(), ContractError>)
        ensures
            r is Ok == contract_step(old(self)@, *event).0,
            final(self)@ == contract_step(old(self)@, *event).1,
            r is Err ==> r == Err::<(), ContractError>(ContractError::AfterTerminal),
    {
        if self.terminated {
            return Err(ContractError::AfterTerminal);
        }
        match event {
            ResponseEvent::Done { .. } | ResponseEvent::Error(_) => {
                self.terminated = true;
            },
            _ => {},
        }
        Ok(())
    }
}

/// Fed to a fresh contract, an event is accepted exactly when no terminal event
/// came before it: the terminal event is exclusive, and nothing that follows
/// it is accepted.
pub proof fn lemma_terminal_event_is_exclusive(events: Seq<ResponseEvent>)
    ensures
        contract_run(false, events).len() == events.len(),
        forall|i: int|
            0 <= i < events.len() ==> (#[trigger] contract_run(false, events)[i] <==> forall|
                j: int,
            |
                0 <= j < i ==> !is_terminal(events[j])),
{
    lemma_contract_run(false, events);
}

/// Over any finite sequence of calls of `accept` on one contract, starting
/// fresh: `states[i]` is the contract before call `i` (taking `events[i]`)
/// and `accepted[i]` whether that call returned `Ok`, as `accept`'s contract
/// relates them. Then call `i` is accepted exactly when no earlier event was
/// terminal; at most one terminal event is accepted, and once a call is
/// refused every later call is refused too.
pub proof fn lemma_calls_accepted_until_terminal(
    events: Seq<ResponseEvent>,
    states: Seq<bool>,
    accepted: Seq<bool>,
)
    requires
        states.len() == events.len() + 1,
        accepted.len() == events.len(),
        states[0] == false,
        forall|i: int|
            0 <= i < events.len() ==> (accepted[i], states[i + 1]) == #[trigger] contract_step(
                states[i],
                events[i],
            ),
    ensures
        forall|i: int|
            0 <= i < events.len() ==> (#[trigger] accepted[i] <==> forall|j: int|
                0 <= j < i ==> !is_terminal(events[j])),
        forall|i: int, j: int|
            #![trigger accepted[i], accepted[j]]
            0 <= i < j < events.len() && accepted[i] && is_terminal(events[i]) ==> !accepted[j],
        forall|i: int, j: int|
            #![trigger accepted[i], accepted[j]]
            0 <= i < j < events.len() && !accepted[i] ==> !accepted[j],
{
    assert forall|n: int| 0 <= n <= events.len() implies (#[trigger] states[n] <==> exists|j: int|
        0 <= j < n && is_terminal(events[j])) by {
        lemma_states_record_terminal(events, states, accepted, n);
    }
    assert forall|i: int| 0 <= i < events.len() implies (#[trigger] accepted[i] <==> forall|j: int|
        0 <= j < i ==> !is_terminal(events[j])) by {
        assert(states[i] <==> exists|j: int| 0 <= j < i && is_terminal(events[j]));
        assert((accepted[i], states[i + 1]) == contract_step(states[i], events[i]));
    }
    assert forall|i: int, j: int|
        #![trigger accepted[i], accepted[j]]
        0 <= i < j < events.len() && accepted[i] && is_terminal(events[i]) implies !accepted[j] by {
        assert(!(forall|m: int| 0 <= m < j ==> !is_terminal(events[m])));
    }
    assert forall|i: int, j: int|
        #![trigger accepted[i], accepted[j]]
        0 <= i < j < events.len() && !accepted[i] implies !accepted[j] by {
        let m = choose|m: int| 0 <= m < i && is_terminal(events[m]);
        assert(!(forall|m2: int| 0 <= m2 < j ==> !is_terminal(events[m2])));
    }
}

proof fn lemma_states_record_terminal(
    events: Seq<ResponseEvent>,
    states: Seq<bool>,
    accepted: Seq<bool>,
    n: int,
)
    requires
        states.len() == events.len() + 1,
        accepted.len() == events.len(),
        states[0] == false,
        forall|i: int|
            0 <= i < events.len() ==> (accepted[i], states[i + 1]) == #[trigger] contract_step(
                states[i],
                events[i],
            ),
        0 <= n <= events.len(),
    ensures
        states[n] <==> exists|j: int| 0 <= j < n && is_terminal(events[j]),
    decreases n,
{
    if n > 0 {
        lemma_states_record_terminal(events, states, accepted, n - 1);
        assert((accepted[n - 1], states[n]) == contract_step(states[n - 1], events[n - 1]));
        if is_terminal(events[n - 1]) {
            assert(exists|j: int| 0 <= j < n && is_terminal(events[j]));
        }
        if exists|j: int| 0 <= j < n - 1 && is_terminal(events[j]) {
            let j = choose|j: int| 0 <= j < n - 1 && is_terminal(events[j]);
            assert(0 <= j < n && is_terminal(events[j]));
        }
    }
}

proof fn lemma_contract_run(terminated: bool, events: Seq<ResponseEvent>)
    ensures
        contract_run(terminated, events).len() == events.len(),
        forall|i: int|
            0 <= i < events.len() ==> (#[trigger] contract_run(terminated, events)[i] <==> (
            !terminated && forall|j: int| 0 <= j < i ==> !is_terminal(events[j]))),
    decreases events.len(),
{
    if events.len() > 0 {
        let rest = events.subrange(1, events.len() as int);
        let (ok, next) = contract_step(terminated, events[0]);
        lemma_contract_run(next, rest);
        let run = contract_run(terminated, events);
        assert forall|i: int| 0 <= i < events.len() implies (#[trigger] run[i] <==> (!terminated
            && forall|j: int| 0 <= j < i ==> !is_terminal(events[j]))) by {
            if i > 0 {
                assert(run[i] == contract_run(next, rest)[i - 1]);
                if !terminated && forall|j: int| 0 <= j < i ==> !is_terminal(events[j]) {
                    assert(!is_terminal(events[0]));
                    assert forall|j: int| 0 <= j < i - 1 implies !is_terminal(rest[j]) by {
                        assert(rest[j] == events[j + 1]);
                    }
                }
                if contract_run(next, rest)[i - 1] {
                    assert forall|j: int| 0 <= j < i implies !is_terminal(events[j]) by {
                        if j > 0 {
                            assert(rest[j - 1] == events[j]);
                        }
                    }
                }
            }
        }
    }
}

} // verus!
