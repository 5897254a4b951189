//! Rebuilding the turns of a stored thread for display: the assistant's text,
//! each tool call with its outcome, the latest plan, and how the turn ended.
use vstd::prelude::*;

use crate::chat::events::{HydratedChatTurn, HydratedChatTurnStatus, HydratedToolCall,
    HydratedToolCallStatus};
use crate::chat::plan::{plan_accepts, snapshot_from_output, snapshot_is, DesktopPlanSnapshot};
use crate::chat::submission::ExUuid;
use crate::primitives::{plan_output_of, read_plan_output};
use crate::text::{ascii_lower_seq, owned, push_str, str_eq, to_ascii_lowercase};

verus! {

/// How a stored turn ended, or that it never did.
#[derive(Debug, Clone, Copy, PartialEq, Eq, Structural)]
pub enum HistoryTurnStatus {
    Completed,
    Cancelled,
    Failed,
    Interrupted,
    Running,
    WaitingPermission,
}

/// A tool call as stored in a turn's transcript.
#[derive(Debug, Clone, PartialEq, Eq)]
pub struct HistoryToolCall {
    pub call_id: String,
    pub tool_name: String,
    pub arguments: String,
}

/// A message of a stored turn's transcript.
#[derive(Debug, Clone, PartialEq, Eq)]
pub enum HistoryMessage {
    User { content: String },
    AssistantText { content: String },
    AssistantToolCalls { content: Option<String>, calls: Vec<HistoryToolCall> },
    ToolResult {
        call_id: String,
        tool_name: String,
        content: String,
        is_error: bool,
    },
    SystemNote { content: String },
}

/// A stored turn.
#[derive(Debug, Clone, PartialEq, Eq)]
pub struct HistoryTurn {
    pub turn_id: String,
    pub user_input: String,
    pub status: HistoryTurnStatus,
    pub finish_reason: Option<String>,
    pub transcript: Vec<HistoryMessage>,
    pub final_output: Option<String>,
}

/// The content of a displayed tool call.
pub struct ToolCallView {
    pub call_id: Seq<char>,
    pub name: Seq<char>,
    pub arguments_json: Seq<char>,
    pub output_summary: Option<Seq<char>>,
    pub error_summary: Option<Seq<char>>,
    pub status: HydratedToolCallStatus,
}

/// The view of an optional string.
pub open spec fn opt_chars(o: Option<String>) -> Option<Seq<char>> {
    match o {
        Some(s) => Some(s@),
        None => None,
    }
}

/// The content of a displayed tool call.
pub open spec fn call_view(c: HydratedToolCall) -> ToolCallView {
    ToolCallView {
        call_id: c.call_id@,
        name: c.name@,
        arguments_json: c.arguments_json@,
        output_summary: opt_chars(c.output_summary),
        error_summary: opt_chars(c.error_summary),
        status: c.status,
    }
}

/// The contents of displayed tool calls.
pub open spec fn call_views(cs: Seq<HydratedToolCall>) -> Seq<ToolCallView> {
    cs.map_values(|c: HydratedToolCall| call_view(c))
}

/// A call prepared by the assistant and not yet answered.
pub open spec fn prepared(c: HistoryToolCall) -> ToolCallView {
    ToolCallView {
        call_id: c.call_id@,
        name: c.tool_name@,
        arguments_json: c.arguments@,
        output_summary: None,
        error_summary: None,
        status: HydratedToolCallStatus::Running,
    }
}

/// The index of the first call of `cs` at or after `i` with id `id`, or
/// `cs.len()`.
pub open spec fn find_call_from(cs: Seq<ToolCallView>, id: Seq<char>, i: int) -> int
    decreases cs.len() - i,
{
    if i < 0 || i >= cs.len() {
        cs.len() as int
    } else if cs[i].call_id == id {
        i
    } else {
        find_call_from(cs, id, i + 1)
    }
}

/// `cs` once a tool result for `call_id` arrives: the first call with that id
/// (a new one with empty arguments where there is none) succeeds with the
/// content as its output, or fails with it as its error.
pub open spec fn result_applied(
    cs: Seq<ToolCallView>,
    call_id: Seq<char>,
    tool_name: Seq<char>,
    content: Seq<char>,
    is_error: bool,
) -> Seq<ToolCallView> {
    let idx = find_call_from(cs, call_id, 0);
    let base = if idx < cs.len() {
        cs
    } else {
        cs.push(
            ToolCallView {
                call_id,
                name: tool_name,
                arguments_json: "{}"@,
                output_summary: None,
                error_summary: None,
                status: HydratedToolCallStatus::Running,
            },
        )
    };
    let c = base[idx];
    base.update(
        idx,
        ToolCallView {
            call_id: c.call_id,
            name: c.name,
            arguments_json: c.arguments_json,
            output_summary: if is_error { c.output_summary } else { Some(content) },
            error_summary: if is_error { Some(content) } else { c.error_summary },
            status: if is_error {
                HydratedToolCallStatus::Failed
            } else {
                HydratedToolCallStatus::Success
            },
        },
    )
}

proof fn lemma_find_call_from(cs: Seq<ToolCallView>, id: Seq<char>, i: int)
    requires
        0 <= i <= cs.len(),
    ensures
        i <= find_call_from(cs, id, i) <= cs.len(),
        find_call_from(cs, id, i) < cs.len() ==> cs[find_call_from(cs, id, i)].call_id == id,
        forall|j: int| i <= j < find_call_from(cs, id, i) ==> cs[j].call_id != id,
    decreases cs.len() - i,
{
    if i < cs.len() && cs[i].call_id != id {
        lemma_find_call_from(cs, id, i + 1);
    }
}

/// A tool result lands on its call: the first displayed call with the
/// result's call id (one added at the end, named after the tool and with
/// `{}` arguments, where no call had that id) shows a successful result's
/// content as its output and succeeds, or a failed result's content as its
/// error and fails; every other call is left as it was.
pub proof fn lemma_result_lands_on_its_call(
    cs: Seq<ToolCallView>,
    call_id: Seq<char>,
    tool_name: Seq<char>,
    content: Seq<char>,
    is_error: bool,
    out: Seq<ToolCallView>,
)
    requires
        out == result_applied(cs, call_id, tool_name, content, is_error),
    ensures
        exists|i: int|
            0 <= i < out.len() && #[trigger] out[i].call_id == call_id && (forall|j: int|
                0 <= j < i ==> out[j].call_id != call_id) && (!is_error ==> out[i].output_summary
                == Some(content) && out[i].status == HydratedToolCallStatus::Success) && (is_error
                ==> out[i].error_summary == Some(content) && out[i].status
                == HydratedToolCallStatus::Failed) && (forall|j: int|
                0 <= j < cs.len() && j != i ==> out[j] == cs[j]) && (i < cs.len() ==> out.len()
                == cs.len() && out[i].name == cs[i].name && out[i].arguments_json
                == cs[i].arguments_json) && (i == cs.len() ==> out.len() == cs.len() + 1
                && out[i].name == tool_name && out[i].arguments_json == "{}"@),
{
    lemma_find_call_from(cs, call_id, 0);
    let idx = find_call_from(cs, call_id, 0);
    assert(0 <= idx < out.len() && out[idx].call_id == call_id);
}

/// What the display has gathered from a transcript so far.
pub struct Gathered {
    pub text: Seq<char>,
    pub calls: Seq<ToolCallView>,
}

/// `g` with one more message of the transcript taken in.
pub open spec fn gather_step(g: Gathered, m: HistoryMessage) -> Gathered {
    match m {
        HistoryMessage::AssistantText { content } => Gathered { text: g.text + content@, calls: g.calls },
        HistoryMessage::AssistantToolCalls { content, calls } => Gathered {
            text: match content {
                Some(c) => g.text + c@,
                None => g.text,
            },
            calls: g.calls + calls@.map_values(|c: HistoryToolCall| prepared(c)),
        },
        HistoryMessage::ToolResult { call_id, tool_name, content, is_error } => Gathered {
            text: g.text,
            calls: result_applied(g.calls, call_id@, tool_name@, content@, is_error),
        },
        _ => g,
    }
}

/// What the display gathers from a whole transcript.
pub open spec fn gathered(ms: Seq<HistoryMessage>) -> Gathered
    decreases ms.len(),
{
    if ms.len() == 0 {
        Gathered { text: Seq::empty(), calls: Seq::empty() }
    } else {
        gather_step(gathered(ms.drop_last()), ms.last())
    }
}

/// The assistant text gathered from a transcript is what its parts give,
/// one after the other.
pub proof fn lemma_gathered_text_concatenates(a: Seq<HistoryMessage>, b: Seq<HistoryMessage>)
    ensures
        gathered(a + b).text == gathered(a).text + gathered(b).text,
    decreases b.len(),
{
    if b.len() == 0 {
        assert(a + b =~= a);
        assert(gathered(a).text + gathered(b).text =~= gathered(a).text);
    } else {
        lemma_gathered_text_concatenates(a, b.drop_last());
        assert((a + b).drop_last() =~= a + b.drop_last());
        assert((a + b).last() == b.last());
        let ga = gathered(a).text;
        let gb = gathered(b.drop_last()).text;
        match b.last() {
            HistoryMessage::AssistantText { content } => {
                assert(ga + (gb + content@) =~= (ga + gb) + content@);
            },
            HistoryMessage::AssistantToolCalls { content, calls } => {
                if let Some(c) = content {
                    assert(ga + (gb + c@) =~= (ga + gb) + c@);
                }
            },
            _ => {},
        }
    }
}

/// The assistant text one message gives: an assistant message's text,
/// and nothing from the user's messages, tool results or system notes.
pub proof fn lemma_gathered_text_of_one_message(m: HistoryMessage)
    ensures
        m matches HistoryMessage::AssistantText { content } ==> gathered(seq![m]).text == content@,
        m matches HistoryMessage::AssistantToolCalls { content, .. } ==> gathered(seq![m]).text == match content {
            Some(c) => c@,
            None => Seq::<char>::empty(),
        },
        (m is User || m is ToolResult || m is SystemNote) ==> gathered(seq![m]).text == Seq::<char>::empty(),
{
    let e = Seq::<HistoryMessage>::empty();
    assert(seq![m].drop_last() =~= e);
    assert(seq![m].last() == m);
    assert(gathered(e).text == Seq::<char>::empty());
    assert(gathered(seq![m]) == gather_step(gathered(e), m));
    if let HistoryMessage::AssistantText { content } = m {
        assert(Seq::<char>::empty() + content@ =~= content@);
    }
    if let HistoryMessage::AssistantToolCalls { content: Some(c), .. } = m {
        assert(Seq::<char>::empty() + c@ =~= c@);
    }
}

/// Tool calls prepared by the assistant are displayed in order, each with
/// its id, tool name and arguments, running and with no output or error yet.
pub proof fn lemma_prepared_calls_are_running(
    content: Option<String>,
    calls: Vec<HistoryToolCall>,
    shown: Seq<ToolCallView>,
)
    requires
        shown == gathered(seq![HistoryMessage::AssistantToolCalls { content, calls }]).calls,
    ensures
        shown.len() == calls@.len(),
        forall|i: int|
            0 <= i < calls@.len() ==> {
                &&& shown[i].call_id == (#[trigger] calls@[i]).call_id@
                &&& shown[i].name == calls@[i].tool_name@
                &&& shown[i].arguments_json == calls@[i].arguments@
                &&& shown[i].status == HydratedToolCallStatus::Running
                &&& shown[i].output_summary is None
                &&& shown[i].error_summary is None
            },
{
    let m = HistoryMessage::AssistantToolCalls { content, calls };
    let e = Seq::<HistoryMessage>::empty();
    assert(seq![m].drop_last() =~= e);
    assert(seq![m].last() == m);
    assert(gathered(e).calls == Seq::<ToolCallView>::empty());
    assert(gathered(seq![m]) == gather_step(gathered(e), m));
    assert(shown =~= Seq::<ToolCallView>::empty() + calls@.map_values(|c: HistoryToolCall| prepared(c)));
}

/// Whether `m` is a successful plan update whose content is JSON.
pub open spec fn is_plan_update(m: HistoryMessage) -> bool {
    m matches HistoryMessage::ToolResult { tool_name, is_error, content, .. } && !is_error
        && tool_name@ == "update_plan"@ && plan_output_of(content@) is Some
}

/// The index of the last plan update of `ms`, if any.
pub open spec fn last_plan_update(ms: Seq<HistoryMessage>) -> Option<int>
    decreases ms.len(),
{
    if ms.len() == 0 {
        None
    } else if is_plan_update(ms.last()) {
        Some(ms.len() - 1)
    } else {
        last_plan_update(ms.drop_last())
    }
}

/// Whether `plan` is what plan update `m` shows: nothing where its content
/// holds no plan or an unusable one, else the snapshot of its plan.
pub open spec fn shows_plan(m: HistoryMessage, plan: Option<DesktopPlanSnapshot>) -> bool {
    let call_id = m->call_id@;
    match plan_output_of(m->ToolResult_content@)->0 {
        None => plan is None,
        Some(p) => (plan is Some <==> plan_accepts(p)) && (plan matches Some(s) ==> snapshot_is(
            call_id,
            p,
            s,
        )),
    }
}

/// Whether `plan` is the latest plan of transcript `ms`.
pub open spec fn is_latest_plan(ms: Seq<HistoryMessage>, plan: Option<DesktopPlanSnapshot>) -> bool {
    match last_plan_update(ms) {
        None => plan is None,
        Some(k) => shows_plan(ms[k], plan),
    }
}

/// The index of the first displayed call with id `id`, or the number of calls.
pub fn find_tool_call(calls: &Vec<HydratedToolCall>, id: &str) -> (r: usize)
    ensures
        r == find_call_from(call_views(calls@), id@, 0),
        r <= calls@.len(),
{
    let ghost cs = call_views(calls@);
    let mut j: usize = 0;
    while j < calls.len()
        invariant
            j <= calls@.len(),
            cs == call_views(calls@),
            find_call_from(cs, id@, 0) == find_call_from(cs, id@, j as int),
        decreases calls@.len() - j,
    {
        assert(cs[j as int] == call_view(calls@[j as int]));
        if str_eq(calls[j].call_id.as_str(), id) {
            return j;
        }
        j = j + 1;
    }
    j
}

/// A copy of an optional string.
fn copy_opt(o: &Option<String>) -> (r: Option<String>)
    ensures
        r == *o,
{
    match o {
        Some(s) => Some(s.clone()),
        None => None,
    }
}

/// Takes a tool result into the displayed calls.
pub fn apply_tool_result(
    calls: &mut Vec<HydratedToolCall>,
    call_id: &String,
    tool_name: &String,
    content: &String,
    is_error: bool,
)
    ensures
        call_views(final(calls)@) == result_applied(
            call_views(old(calls)@),
            call_id@,
            tool_name@,
            content@,
            is_error,
        ),
{
    let ghost before = call_views(calls@);
    let idx = find_tool_call(calls, call_id.as_str());
    if idx == calls.len() {
        calls.push(
            HydratedToolCall {
                call_id: call_id.clone(),
                name: tool_name.clone(),
                arguments_json: owned("{}"),
                output_summary: None,
                error_summary: None,
                status: HydratedToolCallStatus::Running,
            },
        );
    }
    let ghost base = call_views(calls@);
    assert(base =~= (if idx < before.len() {
        before
    } else {
        before.push(
            ToolCallView {
                call_id: call_id@,
                name: tool_name@,
                arguments_json: "{}"@,
                output_summary: None,
                error_summary: None,
                status: HydratedToolCallStatus::Running,
            },
        )
    }));
    let old_call = &calls[idx];
    let updated = HydratedToolCall {
        call_id: old_call.call_id.clone(),
        name: old_call.name.clone(),
        arguments_json: old_call.arguments_json.clone(),
        output_summary: if is_error {
            copy_opt(&old_call.output_summary)
        } else {
            Some(content.clone())
        },
        error_summary: if is_error {
            Some(content.clone())
        } else {
            copy_opt(&old_call.error_summary)
        },
        status: if is_error {
            HydratedToolCallStatus::Failed
        } else {
            HydratedToolCallStatus::Success
        },
    };
    assert(base[idx as int] == call_view(calls@[idx as int]));
    calls.set(idx, updated);
    assert(call_views(calls@) =~= result_applied(before, call_id@, tool_name@, content@, is_error));
}

/// The message shown for a failed turn: the reason it ended with, in lower
/// case, or `fallback` where none was recorded.
pub open spec fn turn_error_text(finish_reason: Option<String>, fallback: Seq<char>) -> Seq<char> {
    match finish_reason {
        Some(r) => "Turn ended with "@ + ascii_lower_seq(r@) + "."@,
        None => fallback,
    }
}

/// The message shown for a failed turn.
pub fn hydrated_turn_error(turn: &HistoryTurn, fallback: &str) -> (r: String)
    ensures
        r@ == turn_error_text(turn.finish_reason, fallback@),
{
    match &turn.finish_reason {
        Some(reason) => {
            let mut out = owned("Turn ended with ");
            let lower = to_ascii_lowercase(reason.as_str());
            push_str(&mut out, lower.as_str());
            push_str(&mut out, ".");
            out
        },
        None => owned(fallback),
    }
}

/// The displayed status of a stored turn, and its error message: a turn that
/// never finished shows as failed by interruption.
pub open spec fn shown_status(
    status: HistoryTurnStatus,
    finish_reason: Option<String>,
) -> (HydratedChatTurnStatus, Option<Seq<char>>) {
    match status {
        HistoryTurnStatus::Completed => (HydratedChatTurnStatus::Completed, None),
        HistoryTurnStatus::Cancelled => (HydratedChatTurnStatus::Cancelled, None),
        HistoryTurnStatus::Failed => (
            HydratedChatTurnStatus::Failed,
            Some(turn_error_text(finish_reason, "Turn failed."@)),
        ),
        _ => (HydratedChatTurnStatus::Failed, Some("Turn interrupted."@)),
    }
}

/// The displayed status of a stored turn, and its error message.
pub fn hydrate_turn_status(turn: &HistoryTurn) -> (r: (HydratedChatTurnStatus, Option<String>))
    ensures
        r.0 == shown_status(turn.status, turn.finish_reason).0,
        opt_chars(r.1) == shown_status(turn.status, turn.finish_reason).1,
{
    match turn.status {
        HistoryTurnStatus::Completed => (HydratedChatTurnStatus::Completed, None),
        HistoryTurnStatus::Cancelled => (HydratedChatTurnStatus::Cancelled, None),
        HistoryTurnStatus::Failed => (
            HydratedChatTurnStatus::Failed,
            Some(hydrated_turn_error(turn, "Turn failed.")),
        ),
        _ => (HydratedChatTurnStatus::Failed, Some(owned("Turn interrupted."))),
    }
}

/// Appends the calls prepared by the assistant, none answered yet.
fn push_prepared(tool_calls: &mut Vec<HydratedToolCall>, calls: &Vec<HistoryToolCall>)
    ensures
        call_views(final(tool_calls)@) == call_views(old(tool_calls)@) + calls@.map_values(
            |c: HistoryToolCall| prepared(c),
        ),
{
    let ghost start = call_views(tool_calls@);
    let mut j: usize = 0;
    while j < calls.len()
        invariant
            j <= calls@.len(),
            call_views(tool_calls@) == start + calls@.subrange(0, j as int).map_values(
                |c: HistoryToolCall| prepared(c),
            ),
        decreases calls@.len() - j,
    {
        let c = &calls[j];
        let ghost before = call_views(tool_calls@);
        tool_calls.push(
            HydratedToolCall {
                call_id: c.call_id.clone(),
                name: c.tool_name.clone(),
                arguments_json: c.arguments.clone(),
                output_summary: None,
                error_summary: None,
                status: HydratedToolCallStatus::Running,
            },
        );
        assert(call_views(tool_calls@) =~= before.push(prepared(calls@[j as int])));
        assert(calls@.subrange(0, j + 1).map_values(|c: HistoryToolCall| prepared(c))
            =~= calls@.subrange(0, j as int).map_values(|c: HistoryToolCall| prepared(c)).push(
            prepared(calls@[j as int]),
        ));
        j = j + 1;
    }
    assert(calls@.subrange(0, calls@.len() as int) =~= calls@);
}

/// A stored turn as displayed: the assistant's text (its final output where
/// one was recorded), each tool call with its outcome, the latest plan, and
/// how the turn ended.
pub fn hydrate_chat_turn(turn: &HistoryTurn) -> (r: HydratedChatTurn)
    ensures
        r.turn_id == turn.turn_id,
        r.prompt == turn.user_input,
        r.assistant_text@ == match turn.final_output {
            Some(o) => o@,
            None => gathered(turn.transcript@).text,
        },
        r.reasoning_text@ == Seq::<char>::empty(),
        call_views(r.tool_calls@) == gathered(turn.transcript@).calls,
        is_latest_plan(turn.transcript@, r.latest_plan),
        r.status == shown_status(turn.status, turn.finish_reason).0,
        opt_chars(r.error) == shown_status(turn.status, turn.finish_reason).1,
{
    let ghost ms = turn.transcript@;
    let mut assistant_text = String::new();
    let mut tool_calls: Vec<HydratedToolCall> = Vec::new();
    let mut latest_plan: Option<DesktopPlanSnapshot> = None;
    let mut i: usize = 0;
    assert(ms.subrange(0, 0) =~= Seq::<HistoryMessage>::empty());
    assert(call_views(tool_calls@) =~= Seq::<ToolCallView>::empty());
    while i < turn.transcript.len()
        invariant
            i <= ms.len(),
            ms == turn.transcript@,
            assistant_text@ == gathered(ms.subrange(0, i as int)).text,
            call_views(tool_calls@) == gathered(ms.subrange(0, i as int)).calls,
            is_latest_plan(ms.subrange(0, i as int), latest_plan),
        decreases ms.len() - i,
    {
        let ghost prefix = ms.subrange(0, i as int);
        let ghost next = ms.subrange(0, i + 1);
        assert(next.drop_last() =~= prefix);
        assert(next.last() == ms[i as int]);
        let ghost g = gathered(prefix);
        let ghost plan_before = latest_plan;
        match &turn.transcript[i] {
            HistoryMessage::AssistantText { content } => {
                push_str(&mut assistant_text, content.as_str());
            },
            HistoryMessage::AssistantToolCalls { content, calls } => {
                if let Some(c) = content {
                    push_str(&mut assistant_text, c.as_str());
                }
                push_prepared(&mut tool_calls, calls);
            },
            HistoryMessage::ToolResult { call_id, tool_name, content, is_error } => {
                apply_tool_result(&mut tool_calls, call_id, tool_name, content, *is_error);
                if !*is_error && str_eq(tool_name.as_str(), "update_plan") {
                    if let Some(po) = read_plan_output(content.as_str()) {
                        latest_plan = match po {
                            None => None,
                            Some(p) => snapshot_from_output(call_id.as_str(), &p),
                        };
                    }
                }
            },
            _ => {},
        }
        proof {
            if is_plan_update(ms[i as int]) {
                assert(last_plan_update(next) == Some(i as int));
            } else {
                assert(last_plan_update(next) == last_plan_update(prefix));
                if let Some(k) = last_plan_update(prefix) {
                    lemma_last_plan_update_bound(prefix);
                    assert(next[k] == prefix[k]);
                }
            }
        }
        i = i + 1;
    }
    assert(ms.subrange(0, ms.len() as int) =~= ms);
    if let Some(o) = &turn.final_output {
        assistant_text = o.clone();
    }
    let (status, error) = hydrate_turn_status(turn);
    HydratedChatTurn {
        turn_id: turn.turn_id.clone(),
        prompt: turn.user_input.clone(),
        assistant_text,
        reasoning_text: String::new(),
        status,
        error,
        latest_plan,
        tool_calls,
    }
}

proof fn lemma_last_plan_update_bound(ms: Seq<HistoryMessage>)
    ensures
        last_plan_update(ms) matches Some(k) ==> 0 <= k < ms.len(),
    decreases ms.len(),
{
    if ms.len() > 0 && !is_plan_update(ms.last()) {
        lemma_last_plan_update_bound(ms.drop_last());
    }
}

/// Whether a stored thread is open or archived.
#[derive(Debug, Clone, Copy, PartialEq, Eq, Structural)]
pub enum ThreadLifecycle {
    Open,
    Archived,
}

/// A stored thread, as far as choosing the active one reads it.
#[derive(Debug)]
pub struct SessionThread {
    pub id: uuid::Uuid,
    pub lifecycle: ThreadLifecycle,
}

/// The index of the first open thread of `ts` at or after `i`, or `ts.len()`.
pub open spec fn first_open_from(ts: Seq<SessionThread>, i: int) -> int
    decreases ts.len() - i,
{
    if i < 0 || i >= ts.len() {
        ts.len() as int
    } else if ts[i].lifecycle == ThreadLifecycle::Open {
        i
    } else {
        first_open_from(ts, i + 1)
    }
}

/// The thread to show: the active one where there is one, else the first
/// open thread of the list, else none.
pub fn choose_active_chat_thread(
    active_thread_id: Option<uuid::Uuid>,
    threads: &Vec<SessionThread>,
) -> (r: Option<uuid::Uuid>)
    ensures
        active_thread_id is Some ==> r == active_thread_id,
        active_thread_id is None ==> {
            let k = first_open_from(threads@, 0);
            &&& k < threads@.len() ==> r == Some(threads@[k].id)
            &&& k >= threads@.len() ==> r is None
        },
{
    if active_thread_id.is_some() {
        return active_thread_id;
    }
    let mut i: usize = 0;
    while i < threads.len()
        invariant
            i <= threads@.len(),
            first_open_from(threads@, 0) == first_open_from(threads@, i as int),
            active_thread_id is None,
        decreases threads@.len() - i,
    {
        if threads[i].lifecycle == ThreadLifecycle::Open {
            return Some(threads[i].id);
        }
        i = i + 1;
    }
    None
}

} // verus!
