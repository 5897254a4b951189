//! Following tool calls across the events of turns: which calls were
//! prepared, under which tool name, so that a completed plan update can be
//! told apart from other completed calls.
use vstd::prelude::*;

use crate::chat::events::{
    is_plan_event, is_turn_event, map_turn_event, outcome_plan, plan_updated_event, DesktopTurnEvent,
    TurnEvent,
};
use crate::chat::plan::plan_accepts;
use crate::protocol::{builtin_name, ToolCall};
use crate::text::{owned, str_eq};

verus! {

/// The id of a tool call.
pub open spec fn call_id_of(call: ToolCall) -> Seq<char> {
    match call {
        ToolCall::FunctionCall { call_id, .. } => call_id@,
        ToolCall::Builtin(c) => c.call_id@,
        ToolCall::Mcp(c) => c.id@,
    }
}

/// The tool name of a call: a built-in tool's canonical name, and nothing
/// for an MCP call without a name.
pub open spec fn tool_name_of(call: ToolCall) -> Seq<char> {
    match call {
        ToolCall::FunctionCall { name, .. } => name@,
        ToolCall::Builtin(c) => builtin_name(c.builtin),
        ToolCall::Mcp(c) => match c.name {
            Some(n) => n@,
            None => ""@,
        },
    }
}

/// The JSON arguments of a call: `{}` for an MCP call without arguments.
pub open spec fn arguments_of(call: ToolCall) -> Seq<char> {
    match call {
        ToolCall::FunctionCall { arguments_json, .. } => arguments_json@,
        ToolCall::Builtin(c) => c.arguments_json@,
        ToolCall::Mcp(c) => match c.arguments_json {
            Some(a) => a@,
            None => "{}"@,
        },
    }
}

/// The id of a tool call.
pub fn tool_call_id(call: &ToolCall) -> (r: &str)
    ensures
        r@ == call_id_of(*call),
{
    match call {
        ToolCall::FunctionCall { call_id, .. } => call_id.as_str(),
        ToolCall::Builtin(c) => c.call_id.as_str(),
        ToolCall::Mcp(c) => c.id.as_str(),
    }
}

/// The tool name of a call.
pub fn tool_name(call: &ToolCall) -> (r: &str)
    ensures
        r@ == tool_name_of(*call),
{
    match call {
        ToolCall::FunctionCall { name, .. } => name.as_str(),
        ToolCall::Builtin(c) => c.builtin.canonical_name(),
        ToolCall::Mcp(c) => match &c.name {
            Some(n) => n.as_str(),
            None => "",
        },
    }
}

/// The JSON arguments of a call.
pub fn tool_arguments_json(call: &ToolCall) -> (r: &str)
    ensures
        r@ == arguments_of(*call),
{
    match call {
        ToolCall::FunctionCall { arguments_json, .. } => arguments_json.as_str(),
        ToolCall::Builtin(c) => c.arguments_json.as_str(),
        ToolCall::Mcp(c) => match &c.arguments_json {
            Some(a) => a.as_str(),
            None => "{}",
        },
    }
}

/// A prepared call: the turn it belongs to, its id and its tool name.
#[derive(Debug)]
pub struct PreparedToolCall {
    pub turn_id: String,
    pub call_id: String,
    pub name: String,
}

/// The name recorded last for a call of a turn in `s`, if any.
pub open spec fn name_of(s: Seq<PreparedToolCall>, key: (Seq<char>, Seq<char>)) -> Option<Seq<char>>
    decreases s.len(),
{
    if s.len() == 0 {
        None
    } else if (s.last().turn_id@, s.last().call_id@) == key {
        Some(s.last().name@)
    } else {
        name_of(s.drop_last(), key)
    }
}

/// The prepared calls of `s`, by turn and call id.
pub open spec fn names_map(s: Seq<PreparedToolCall>) -> Map<(Seq<char>, Seq<char>), Seq<char>> {
    Map::new(|k: (Seq<char>, Seq<char>)| name_of(s, k) is Some, |k: (Seq<char>, Seq<char>)| name_of(s, k)->0)
}

/// The view of an optional string slice.
pub open spec fn opt_str(o: Option<&str>) -> Option<Seq<char>> {
    match o {
        Some(s) => Some(s@),
        None => None,
    }
}

/// Whether key `k` is among those dropped for turn `turn_id`: the one call
/// `call_id` where given, else every call of the turn.
pub open spec fn is_dropped(k: (Seq<char>, Seq<char>), turn_id: Seq<char>, call_id: Option<Seq<char>>) -> bool {
    k.0 == turn_id && match call_id {
        Some(c) => k.1 == c,
        None => true,
    }
}

proof fn lemma_name_of_push(s: Seq<PreparedToolCall>, e: PreparedToolCall, k: (Seq<char>, Seq<char>))
    ensures
        name_of(s.push(e), k) == if (e.turn_id@, e.call_id@) == k {
            Some(e.name@)
        } else {
            name_of(s, k)
        },
{
    assert(s.push(e).drop_last() =~= s);
}

/// Follows the tool calls of running turns by the events they produce. The
/// prepared calls are keyed by a pair of strings (turn id, call id); vstd's
/// hash maps specify their operations only for keys whose hashing vstd
/// models (integers, or a single `String` in `StringHashMap`), not for such a
/// pair, so the calls are kept in a vector, looked up by walking it, with
/// `prepared` as the map they stand for.
#[derive(Debug)]
pub struct DesktopTurnEventMapper {
    prepared_tool_names: Vec<PreparedToolCall>,
}

impl DesktopTurnEventMapper {
    /// The tool name of each prepared, not yet completed call, keyed by turn
    /// id and call id.
    pub closed spec fn prepared(&self) -> Map<(Seq<char>, Seq<char>), Seq<char>> {
        names_map(self.prepared_tool_names@)
    }

    /// A mapper that follows no call.
    pub fn new() -> (r: DesktopTurnEventMapper)
        ensures
            r.prepared() == Map::<(Seq<char>, Seq<char>), Seq<char>>::empty(),
    {
        let r = DesktopTurnEventMapper { prepared_tool_names: Vec::new() };
        assert(r.prepared() =~= Map::<(Seq<char>, Seq<char>), Seq<char>>::empty());
        r
    }

    /// Drops the entries of a turn: those of one call where `call_id` names
    /// it, else all of them; the others keep their names.
    fn retain_without(&mut self, turn_id: &str, call_id: Option<&str>)
        ensures
            forall|k: (Seq<char>, Seq<char>)|
                #![trigger name_of(final(self).prepared_tool_names@, k)]
                name_of(final(self).prepared_tool_names@, k) == if is_dropped(
                    k,
                    turn_id@,
                    opt_str(call_id),
                ) {
                    None
                } else {
                    name_of(old(self).prepared_tool_names@, k)
                },
    {
        let ghost s = self.prepared_tool_names@;
        let ghost c = opt_str(call_id);
        let mut kept: Vec<PreparedToolCall> = Vec::new();
        let mut old_entries: Vec<PreparedToolCall> = Vec::new();
        std::mem::swap(&mut old_entries, &mut self.prepared_tool_names);
        let mut i: usize = 0;
        while i < old_entries.len()
            invariant
                i <= s.len(),
                old_entries@ == s,
                c == opt_str(call_id),
                forall|k: (Seq<char>, Seq<char>)|
                    #![trigger name_of(kept@, k)]
                    name_of(kept@, k) == if is_dropped(k, turn_id@, c) {
                        None
                    } else {
                        name_of(s.subrange(0, i as int), k)
                    },
            decreases s.len() - i,
        {
            let e = &old_entries[i];
            let dropped = str_eq(e.turn_id.as_str(), turn_id) && match call_id {
                Some(cid) => str_eq(e.call_id.as_str(), cid),
                None => true,
            };
            let ghost before = kept@;
            let ghost prefix = s.subrange(0, i as int);
            assert(s.subrange(0, i + 1) =~= prefix.push(s[i as int]));
            assert(dropped == is_dropped((e.turn_id@, e.call_id@), turn_id@, c));
            if !dropped {
                let copy = PreparedToolCall {
                    turn_id: e.turn_id.clone(),
                    call_id: e.call_id.clone(),
                    name: e.name.clone(),
                };
                kept.push(copy);
                assert forall|k: (Seq<char>, Seq<char>)|
                    #![trigger name_of(kept@, k)]
                    name_of(kept@, k) == if is_dropped(k, turn_id@, c) {
                        None
                    } else {
                        name_of(s.subrange(0, i + 1), k)
                    } by {
                    lemma_name_of_push(before, copy, k);
                    lemma_name_of_push(prefix, s[i as int], k);
                }
            } else {
                assert forall|k: (Seq<char>, Seq<char>)|
                    #![trigger name_of(kept@, k)]
                    name_of(kept@, k) == if is_dropped(k, turn_id@, c) {
                        None
                    } else {
                        name_of(s.subrange(0, i + 1), k)
                    } by {
                    lemma_name_of_push(prefix, s[i as int], k);
                }
            }
            i = i + 1;
        }
        assert(s.subrange(0, s.len() as int) =~= s);
        self.prepared_tool_names = kept;
    }

    /// Records that a turn prepared a call.
    pub fn record_prepared(&mut self, turn_id: &str, call: &ToolCall)
        ensures
            final(self).prepared() == old(self).prepared().insert(
                (turn_id@, call_id_of(*call)),
                tool_name_of(*call),
            ),
    {
        let call_id = tool_call_id(call);
        let name = tool_name(call);
        self.retain_without(turn_id, Some(call_id));
        let ghost mid = self.prepared_tool_names@;
        let entry = PreparedToolCall {
            turn_id: owned(turn_id),
            call_id: owned(call_id),
            name: owned(name),
        };
        self.prepared_tool_names.push(entry);
        assert forall|k: (Seq<char>, Seq<char>)| #[trigger] name_of(self.prepared_tool_names@, k)
            == if k == (turn_id@, call_id_of(*call)) {
            Some(tool_name_of(*call))
        } else {
            name_of(old(self).prepared_tool_names@, k)
        } by {
            lemma_name_of_push(mid, entry, k);
        }
        assert(self.prepared() =~= old(self).prepared().insert(
            (turn_id@, call_id_of(*call)),
            tool_name_of(*call),
        ));
    }

    /// Forgets a completed call and hands back the tool name it was prepared
    /// under, if it was.
    pub fn take_prepared(&mut self, turn_id: &str, call_id: &str) -> (r: Option<String>)
        ensures
            final(self).prepared() == old(self).prepared().remove((turn_id@, call_id@)),
            r matches Some(n) ==> old(self).prepared().contains_key((turn_id@, call_id@))
                && n@ == old(self).prepared()[(turn_id@, call_id@)],
            r is None ==> !old(self).prepared().contains_key((turn_id@, call_id@)),
    {
        let ghost s = self.prepared_tool_names@;
        let ghost key = (turn_id@, call_id@);
        let mut found: Option<String> = None;
        let mut i: usize = self.prepared_tool_names.len();
        assert(s.subrange(0, s.len() as int) =~= s);
        while i > 0 && found.is_none()
            invariant
                i <= s.len(),
                self.prepared_tool_names@ == s,
                key == (turn_id@, call_id@),
                found is None ==> name_of(s, key) == name_of(s.subrange(0, i as int), key),
                found is Some ==> name_of(s, key) == Some(found->0@),
            decreases i,
        {
            let e = &self.prepared_tool_names[i - 1];
            proof {
                let prefix = s.subrange(0, i - 1);
                assert(s.subrange(0, i as int) =~= prefix.push(s[i - 1]));
                lemma_name_of_push(prefix, s[i - 1], key);
            }
            if str_eq(e.turn_id.as_str(), turn_id) && str_eq(e.call_id.as_str(), call_id) {
                found = Some(e.name.clone());
            }
            i = i - 1;
        }
        assert(s.subrange(0, 0) =~= Seq::<PreparedToolCall>::empty());
        self.retain_without(turn_id, Some(call_id));
        assert(self.prepared() =~= old(self).prepared().remove(key));
        found
    }

    /// Whether a completed call was a prepared plan update; the call is
    /// forgotten either way.
    pub fn complete_call(&mut self, turn_id: &str, call_id: &str) -> (r: bool)
        ensures
            final(self).prepared() == old(self).prepared().remove((turn_id@, call_id@)),
            r == (old(self).prepared().contains_key((turn_id@, call_id@))
                && old(self).prepared()[(turn_id@, call_id@)] == "update_plan"@),
    {
        match self.take_prepared(turn_id, call_id) {
            Some(name) => str_eq(name.as_str(), "update_plan"),
            None => false,
        }
    }

    /// Forgets every call of a finished turn.
    pub fn finish_turn(&mut self, turn_id: &str)
        ensures
            forall|k: (Seq<char>, Seq<char>)|
                #[trigger] final(self).prepared().contains_key(k) <==> old(self).prepared().contains_key(k)
                    && k.0 != turn_id@,
            forall|k: (Seq<char>, Seq<char>)|
                #[trigger] final(self).prepared().contains_key(k) ==> final(self).prepared()[k]
                    == old(self).prepared()[k],
    {
        self.retain_without(turn_id, None);
    }

    /// The front end's events for one turn event: its own view, then, when
    /// a completed call was a prepared plan update whose outcome reports an
    /// acceptable plan, the plan-updated event. A prepared call is
    /// remembered under the turn, a completed one forgotten, and a finished
    /// turn forgets all its calls.
    pub fn map_event(&mut self, turn_id: &str, event: &TurnEvent) -> (r: Vec<DesktopTurnEvent>)
        ensures
            1 <= r@.len() <= 2,
            is_turn_event(turn_id@, *event, r@[0]),
            match *event {
                TurnEvent::ToolCallPrepared { call } => {
                    &&& r@.len() == 1
                    &&& final(self).prepared() == old(self).prepared().insert(
                        (turn_id@, call_id_of(call)),
                        tool_name_of(call),
                    )
                },
                TurnEvent::ToolCallCompleted { call_id, result } => {
                    &&& final(self).prepared() == old(self).prepared().remove((turn_id@, call_id@))
                    &&& (r@.len() == 2) == (old(self).prepared().contains_key((turn_id@, call_id@))
                        && old(self).prepared()[(turn_id@, call_id@)] == "update_plan"@ && (outcome_plan(
                        result,
                    ) matches Some(p) && plan_accepts(p)))
                    &&& r@.len() == 2 ==> is_plan_event(turn_id@, call_id@, result, r@[1])
                },
                TurnEvent::TurnFinished { .. } => {
                    &&& r@.len() == 1
                    &&& forall|k: (Seq<char>, Seq<char>)|
                        #[trigger] final(self).prepared().contains_key(k) <==> old(self).prepared().contains_key(k)
                            && k.0 != turn_id@
                    &&& forall|k: (Seq<char>, Seq<char>)|
                        #[trigger] final(self).prepared().contains_key(k) ==> final(self).prepared()[k]
                            == old(self).prepared()[k]
                },
                _ => r@.len() == 1 && final(self).prepared() == old(self).prepared(),
            },
    {
        let mut events: Vec<DesktopTurnEvent> = Vec::new();
        match map_turn_event(turn_id, event) {
            Some(mapped) => events.push(mapped),
            None => {},
        }
        match event {
            TurnEvent::ToolCallPrepared { call } => {
                self.record_prepared(turn_id, call);
            },
            TurnEvent::ToolCallCompleted { call_id, result } => {
                if self.complete_call(turn_id, call_id.as_str()) {
                    match plan_updated_event(turn_id, call_id.as_str(), result) {
                        Some(mapped) => events.push(mapped),
                        None => {},
                    }
                }
            },
            TurnEvent::TurnFinished { .. } => {
                self.finish_turn(turn_id);
            },
            _ => {},
        }
        events
    }

}


impl Default for DesktopTurnEventMapper {
    /// A mapper that remembers no call.
    fn default() -> (r: DesktopTurnEventMapper)
        ensures
            r.prepared() == Map::<(Seq<char>, Seq<char>), Seq<char>>::empty(),
    {
        DesktopTurnEventMapper::new()
    }
}

} // verus!
