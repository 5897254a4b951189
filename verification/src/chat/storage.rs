//! Stored conversation history: the persisted form of messages and tool
//! calls, and the conversation records kept by a repository.
use vstd::prelude::*;

use crate::catalog::{Catalog, Keyed};
use crate::chat::events::TurnTargetKind;
use crate::chat::model::TurnMessage;
use crate::protocol::{builtin_from_name, builtin_name, Builtin, BuiltinToolCall, McpCall,
    McpCallType, ToolCall};
use crate::text::{owned, str_eq};

verus! {

/// A persisted tool call.
#[derive(Debug, PartialEq, Eq)]
pub enum StoredToolCall {
    FunctionCall { sequence: u32, call_id: String, name: String, arguments_json: String },
    Builtin { sequence: u32, call_id: String, builtin_name: String, arguments_json: String },
    Mcp {
        sequence: u32,
        id: String,
        mcp_type: String,
        server_label: Option<String>,
        name: Option<String>,
        arguments_json: Option<String>,
        output_json: Option<String>,
        tools_json: Option<String>,
        error: Option<String>,
    },
}

/// A copy of an optional string.
pub fn clone_opt(o: &Option<String>) -> (r: Option<String>)
    ensures
        r == *o,
{
    match o {
        Some(s) => Some(s.clone()),
        None => None,
    }
}

impl Clone for StoredToolCall {
    fn clone(&self) -> (r: StoredToolCall)
        ensures
            r == *self,
    {
        match self {
            StoredToolCall::FunctionCall { sequence, call_id, name, arguments_json } => {
                StoredToolCall::FunctionCall {
                    sequence: *sequence,
                    call_id: call_id.clone(),
                    name: name.clone(),
                    arguments_json: arguments_json.clone(),
                }
            },
            StoredToolCall::Builtin { sequence, call_id, builtin_name, arguments_json } => {
                StoredToolCall::Builtin {
                    sequence: *sequence,
                    call_id: call_id.clone(),
                    builtin_name: builtin_name.clone(),
                    arguments_json: arguments_json.clone(),
                }
            },
            StoredToolCall::Mcp {
                sequence,
                id,
                mcp_type,
                server_label,
                name,
                arguments_json,
                output_json,
                tools_json,
                error,
            } => StoredToolCall::Mcp {
                sequence: *sequence,
                id: id.clone(),
                mcp_type: mcp_type.clone(),
                server_label: clone_opt(server_label),
                name: clone_opt(name),
                arguments_json: clone_opt(arguments_json),
                output_json: clone_opt(output_json),
                tools_json: clone_opt(tools_json),
                error: clone_opt(error),
            },
        }
    }
}

/// The persisted spelling of an MCP call kind.
pub open spec fn mcp_type_name(t: McpCallType) -> Seq<char> {
    match t {
        McpCallType::McpListTools => "mcp_list_tools"@,
        McpCallType::McpCall => "mcp_call"@,
        McpCallType::Unknown(v) => v@,
    }
}

/// Whether `s` is the persisted form of `c`: every field kept, a known
/// built-in tool stored under its canonical name and an unknown one under its
/// own name, and the MCP kind stored under its spelling.
pub open spec fn stored_is(c: ToolCall, s: StoredToolCall) -> bool {
    match (c, s) {
        (
            ToolCall::FunctionCall { sequence, call_id, name, arguments_json },
            StoredToolCall::FunctionCall {
                sequence: s_sequence,
                call_id: s_call_id,
                name: s_name,
                arguments_json: s_arguments,
            },
        ) => sequence == s_sequence && call_id == s_call_id && name == s_name && arguments_json
            == s_arguments,
        (
            ToolCall::Builtin(b),
            StoredToolCall::Builtin { sequence, call_id, builtin_name: stored_name, arguments_json },
        ) => {
            &&& b.sequence == sequence
            &&& b.call_id == call_id
            &&& b.arguments_json == arguments_json
            &&& match b.builtin {
                Builtin::Unknown(n) => stored_name == n,
                other => stored_name@ == builtin_name(other),
            }
        },
        (
            ToolCall::Mcp(m),
            StoredToolCall::Mcp {
                sequence,
                id,
                mcp_type,
                server_label,
                name,
                arguments_json,
                output_json,
                tools_json,
                error,
            },
        ) => {
            &&& m.sequence == sequence
            &&& m.id == id
            &&& match m.mcp_type {
                McpCallType::Unknown(v) => mcp_type == v,
                other => mcp_type@ == mcp_type_name(other),
            }
            &&& m.server_label == server_label
            &&& m.name == name
            &&& m.arguments_json == arguments_json
            &&& m.output_json == output_json
            &&& m.tools_json == tools_json
            &&& m.error == error
        },
        _ => false,
    }
}

/// The MCP kind that a persisted spelling denotes, if it is a known one.
pub open spec fn mcp_type_from_name(name: Seq<char>) -> Option<McpCallType> {
    if name == "mcp_list_tools"@ {
        Some(McpCallType::McpListTools)
    } else if name == "mcp_call"@ {
        Some(McpCallType::McpCall)
    } else {
        None
    }
}

/// Whether `c` is the tool call that persisted form `s` restores: every field
/// kept, a known tool name read back as that tool and any other name as an
/// unknown tool, and likewise for the MCP kind.
pub open spec fn restored_is(s: StoredToolCall, c: ToolCall) -> bool {
    match (s, c) {
        (
            StoredToolCall::FunctionCall { sequence, call_id, name, arguments_json },
            ToolCall::FunctionCall {
                sequence: c_sequence,
                call_id: c_call_id,
                name: c_name,
                arguments_json: c_arguments,
            },
        ) => sequence == c_sequence && call_id == c_call_id && name == c_name && arguments_json
            == c_arguments,
        (
            StoredToolCall::Builtin { sequence, call_id, builtin_name: stored_name, arguments_json },
            ToolCall::Builtin(b),
        ) => {
            &&& b.sequence == sequence
            &&& b.call_id == call_id
            &&& b.arguments_json == arguments_json
            &&& match builtin_from_name(stored_name@) {
                Some(known) => b.builtin == known,
                None => b.builtin == Builtin::Unknown(stored_name),
            }
        },
        (
            StoredToolCall::Mcp {
                sequence,
                id,
                mcp_type,
                server_label,
                name,
                arguments_json,
                output_json,
                tools_json,
                error,
            },
            ToolCall::Mcp(m),
        ) => {
            &&& m.sequence == sequence
            &&& m.id == id
            &&& match mcp_type_from_name(mcp_type@) {
                Some(known) => m.mcp_type == known,
                None => m.mcp_type == McpCallType::Unknown(mcp_type),
            }
            &&& m.server_label == server_label
            &&& m.name == name
            &&& m.arguments_json == arguments_json
            &&& m.output_json == output_json
            &&& m.tools_json == tools_json
            &&& m.error == error
        },
        _ => false,
    }
}

impl StoredToolCall {
    /// The persisted form of a tool call.
    pub fn from_tool_call(call: &ToolCall) -> (s: StoredToolCall)
        ensures
            stored_is(*call, s),
    {
        match call {
            ToolCall::FunctionCall { sequence, call_id, name, arguments_json } => {
                StoredToolCall::FunctionCall {
                    sequence: *sequence,
                    call_id: call_id.clone(),
                    name: name.clone(),
                    arguments_json: arguments_json.clone(),
                }
            },
            ToolCall::Builtin(b) => StoredToolCall::Builtin {
                sequence: b.sequence,
                call_id: b.call_id.clone(),
                builtin_name: match &b.builtin {
                    Builtin::Unknown(n) => n.clone(),
                    other => owned(other.canonical_name()),
                },
                arguments_json: b.arguments_json.clone(),
            },
            ToolCall::Mcp(m) => StoredToolCall::Mcp {
                sequence: m.sequence,
                id: m.id.clone(),
                mcp_type: match &m.mcp_type {
                    McpCallType::McpListTools => owned("mcp_list_tools"),
                    McpCallType::McpCall => owned("mcp_call"),
                    McpCallType::Unknown(value) => value.clone(),
                },
                server_label: clone_opt(&m.server_label),
                name: clone_opt(&m.name),
                arguments_json: clone_opt(&m.arguments_json),
                output_json: clone_opt(&m.output_json),
                tools_json: clone_opt(&m.tools_json),
                error: clone_opt(&m.error),
            },
        }
    }

    /// The tool call that this persisted form restores.
    pub fn into_tool_call(self) -> (c: ToolCall)
        ensures
            restored_is(self, c),
    {
        match self {
            StoredToolCall::FunctionCall { sequence, call_id, name, arguments_json } => {
                ToolCall::FunctionCall { sequence, call_id, name, arguments_json }
            },
            StoredToolCall::Builtin { sequence, call_id, builtin_name, arguments_json } => {
                let builtin = match Builtin::from_name(builtin_name.as_str()) {
                    Some(b) => b,
                    None => Builtin::Unknown(builtin_name),
                };
                ToolCall::Builtin(BuiltinToolCall { sequence, call_id, builtin, arguments_json })
            },
            StoredToolCall::Mcp {
                sequence,
                id,
                mcp_type,
                server_label,
                name,
                arguments_json,
                output_json,
                tools_json,
                error,
            } => {
                let kind = if str_eq(mcp_type.as_str(), "mcp_list_tools") {
                    McpCallType::McpListTools
                } else if str_eq(mcp_type.as_str(), "mcp_call") {
                    McpCallType::McpCall
                } else {
                    McpCallType::Unknown(mcp_type)
                };
                ToolCall::Mcp(
                    McpCall {
                        sequence,
                        id,
                        mcp_type: kind,
                        server_label,
                        name,
                        arguments_json,
                        output_json,
                        tools_json,
                        error,
                    },
                )
            },
        }
    }
}

/// Whether storing `c` and reading it back could give another call: a tool or
/// MCP kind that is unknown but spelled like a known one.
pub open spec fn storage_ambiguous(c: ToolCall) -> bool {
    match c {
        ToolCall::Builtin(b) => match b.builtin {
            Builtin::Unknown(n) => builtin_from_name(n@) is Some,
            _ => false,
        },
        ToolCall::Mcp(m) => match m.mcp_type {
            McpCallType::Unknown(v) => mcp_type_from_name(v@) is Some,
            _ => false,
        },
        _ => false,
    }
}

/// Storing a tool call and restoring it gives the same call back, unless the
/// call names an unknown tool or MCP kind with a known spelling.
pub proof fn lemma_tool_call_storage_roundtrip(c: ToolCall, s: StoredToolCall, back: ToolCall)
    requires
        stored_is(c, s),
        restored_is(s, back),
        !storage_ambiguous(c),
    ensures
        back == c,
{
    match c {
        ToolCall::Builtin(b) => {
            crate::protocol::lemma_builtin_name_roundtrip(b.builtin);
        },
        ToolCall::Mcp(m) => {
            reveal_strlit("mcp_list_tools");
            reveal_strlit("mcp_call");
            assert("mcp_list_tools"@[4] == 'l' && "mcp_call"@[4] == 'c');
        },
        _ => {},
    }
}

/// A persisted history message.
#[derive(Debug, PartialEq, Eq)]
pub enum StoredConversationMessage {
    User { content: String },
    AssistantText { content: String },
    AssistantToolCalls { content: Option<String>, calls: Vec<StoredToolCall> },
    ToolResult { call_id: String, tool_name: String, content: String, is_error: bool },
    SystemNote { content: String },
}

/// The content of a persisted history message.
pub enum StoredMessageView {
    User { content: String },
    AssistantText { content: String },
    AssistantToolCalls { content: Option<String>, calls: Seq<StoredToolCall> },
    ToolResult { call_id: String, tool_name: String, content: String, is_error: bool },
    SystemNote { content: String },
}

impl View for StoredConversationMessage {
    type V = StoredMessageView;

    open spec fn view(&self) -> StoredMessageView {
        match self {
            StoredConversationMessage::User { content } => StoredMessageView::User {
                content: *content,
            },
            StoredConversationMessage::AssistantText { content } => {
                StoredMessageView::AssistantText { content: *content }
            },
            StoredConversationMessage::AssistantToolCalls { content, calls } => {
                StoredMessageView::AssistantToolCalls { content: *content, calls: calls@ }
            },
            StoredConversationMessage::ToolResult { call_id, tool_name, content, is_error } => {
                StoredMessageView::ToolResult {
                    call_id: *call_id,
                    tool_name: *tool_name,
                    content: *content,
                    is_error: *is_error,
                }
            },
            StoredConversationMessage::SystemNote { content } => StoredMessageView::SystemNote {
                content: *content,
            },
        }
    }
}

/// A copy of a list of persisted tool calls.
pub fn clone_calls(calls: &Vec<StoredToolCall>) -> (r: Vec<StoredToolCall>)
    ensures
        r@ == calls@,
{
    let mut r: Vec<StoredToolCall> = Vec::new();
    let mut i: usize = 0;
    while i < calls.len()
        invariant
            i <= calls@.len(),
            r@ == calls@.subrange(0, i as int),
        decreases calls@.len() - i,
    {
        r.push(calls[i].clone());
        i = i + 1;
        assert(r@ =~= calls@.subrange(0, i as int));
    }
    assert(calls@.subrange(0, calls@.len() as int) =~= calls@);
    r
}

impl StoredConversationMessage {
    /// A copy of this message.
    pub fn duplicate(&self) -> (r: StoredConversationMessage)
        ensures
            r@ == self@,
    {
        match self {
            StoredConversationMessage::User { content } => StoredConversationMessage::User {
                content: content.clone(),
            },
            StoredConversationMessage::AssistantText { content } => {
                StoredConversationMessage::AssistantText { content: content.clone() }
            },
            StoredConversationMessage::AssistantToolCalls { content, calls } => {
                StoredConversationMessage::AssistantToolCalls {
                    content: clone_opt(content),
                    calls: clone_calls(calls),
                }
            },
            StoredConversationMessage::ToolResult { call_id, tool_name, content, is_error } => {
                StoredConversationMessage::ToolResult {
                    call_id: call_id.clone(),
                    tool_name: tool_name.clone(),
                    content: content.clone(),
                    is_error: *is_error,
                }
            },
            StoredConversationMessage::SystemNote { content } => {
                StoredConversationMessage::SystemNote { content: content.clone() }
            },
        }
    }
}

impl Clone for StoredConversationMessage {
    fn clone(&self) -> (r: StoredConversationMessage)
        ensures
            r@ == self@,
    {
        self.duplicate()
    }
}

/// A copy of a persisted history.
pub fn clone_history(h: &Vec<StoredConversationMessage>) -> (r: Vec<StoredConversationMessage>)
    ensures
        views(r@) == views(h@),
{
    let mut r: Vec<StoredConversationMessage> = Vec::new();
    let mut i: usize = 0;
    while i < h.len()
        invariant
            i <= h@.len(),
            views(r@) == views(h@).subrange(0, i as int),
        decreases h@.len() - i,
    {
        let ghost before = views(r@);
        let m = h[i].duplicate();
        r.push(m);
        assert(views(r@) =~= before.push(h@[i as int]@));
        i = i + 1;
        assert(views(r@) =~= views(h@).subrange(0, i as int));
    }
    assert(views(h@).subrange(0, h@.len() as int) =~= views(h@));
    r
}

/// The contents of a sequence of messages.
pub open spec fn views(v: Seq<StoredConversationMessage>) -> Seq<StoredMessageView> {
    v.map_values(|m: StoredConversationMessage| m@)
}

/// The persisted history of one conversation.
#[derive(Debug, PartialEq, Eq)]
pub struct ConversationRecord {
    pub conversation_id: String,
    pub target_kind: TurnTargetKind,
    pub target_id: String,
    pub history: Vec<StoredConversationMessage>,
    pub updated_at_ms: u64,
}

/// The content of a conversation record.
pub struct ConversationRecordView {
    pub conversation_id: String,
    pub target_kind: TurnTargetKind,
    pub target_id: String,
    pub history: Seq<StoredMessageView>,
    pub updated_at_ms: u64,
}

impl View for ConversationRecord {
    type V = ConversationRecordView;

    open spec fn view(&self) -> ConversationRecordView {
        ConversationRecordView {
            conversation_id: self.conversation_id,
            target_kind: self.target_kind,
            target_id: self.target_id,
            history: views(self.history@),
            updated_at_ms: self.updated_at_ms,
        }
    }
}

impl Clone for ConversationRecord {
    fn clone(&self) -> (r: ConversationRecord)
        ensures
            r@ == self@,
    {
        self.duplicate()
    }
}

impl Keyed for ConversationRecord {
    open spec fn key_of(v: ConversationRecordView) -> Seq<char> {
        v.conversation_id@
    }

    open spec fn stamp_of(v: ConversationRecordView) -> u64 {
        v.updated_at_ms
    }

    fn key(&self) -> (r: &str) {
        self.conversation_id.as_str()
    }

    fn stamp(&self) -> (r: u64) {
        self.updated_at_ms
    }

    fn duplicate(&self) -> (r: ConversationRecord) {
        ConversationRecord {
            conversation_id: self.conversation_id.clone(),
            target_kind: self.target_kind,
            target_id: self.target_id.clone(),
            history: clone_history(&self.history),
            updated_at_ms: self.updated_at_ms,
        }
    }
}

/// Conversation records kept in memory, keyed by conversation id.
pub struct InMemoryConversationRepository {
    records: Catalog<ConversationRecord>,
}

impl InMemoryConversationRepository {
    /// The stored records, keyed by conversation id.
    pub closed spec fn contents(&self) -> Map<Seq<char>, ConversationRecordView> {
        self.records.contents()
    }

    /// An empty repository.
    pub fn new() -> (r: InMemoryConversationRepository)
        ensures
            r.contents() == Map::<Seq<char>, ConversationRecordView>::empty(),
    {
        InMemoryConversationRepository { records: Catalog::new() }
    }

    /// Saves a record, replacing the one with the same conversation id.
    pub fn save(&mut self, record: ConversationRecord)
        ensures
            final(self).contents() == old(self).contents().insert(
                record.conversation_id@,
                record@,
            ),
    {
        self.records.save(record);
    }

    /// The record of a conversation, if stored.
    pub fn load(&self, conversation_id: &str) -> (r: Option<ConversationRecord>)
        ensures
            r is Some <==> self.contents().contains_key(conversation_id@),
            r matches Some(rec) ==> rec@ == self.contents()[conversation_id@],
    {
        self.records.load(conversation_id)
    }

    /// Every record, most recently updated first, ties by conversation id.
    pub fn list(&self) -> (r: Vec<ConversationRecord>)
        ensures
            crate::catalog::is_listed::<ConversationRecord>(crate::catalog::views(r@)),
            lists_records(self.contents(), r@),
    {
        self.records.list()
    }
}

/// Conversation records backed by a file at `path`; the caller writes
/// `list()` back to the file after each change.
pub struct JsonConversationRepository {
    path: String,
    records: InMemoryConversationRepository,
}

impl JsonConversationRepository {
    /// The path of the conversation file.
    pub closed spec fn file_path(&self) -> String {
        self.path
    }

    /// The stored records, keyed by conversation id.
    pub closed spec fn contents(&self) -> Map<Seq<char>, ConversationRecordView> {
        self.records.contents()
    }

    /// A repository for `path` holding the records read from it; of two
    /// records with one conversation id the later one is kept.
    pub fn new(path: String, loaded: Vec<ConversationRecord>) -> (r: JsonConversationRepository)
        ensures
            r.file_path() == path,
            read_from_records(r.contents(), loaded@),
    {
        let mut records = InMemoryConversationRepository::new();
        let mut i: usize = 0;
        while i < loaded.len()
            invariant
                i <= loaded@.len(),
                forall|k: Seq<char>|
                    #[trigger] records.contents().contains_key(k) <==> exists|j: int|
                        0 <= j < i && loaded@[j].conversation_id@ == k,
                forall|k: Seq<char>|
                    #[trigger] records.contents().contains_key(k) ==> exists|j: int|
                        0 <= j < i && loaded@[j].conversation_id@ == k
                            && records.contents()[k] == loaded@[j]@
                            && forall|m: int|
                                j < m < i ==> loaded@[m].conversation_id@ != k,
            decreases loaded@.len() - i,
        {
            let rec = loaded[i].duplicate();
            let ghost prev = records.contents();
            records.save(rec);
            proof {
                assert forall|k: Seq<char>| #[trigger] records.contents().contains_key(k) implies
                    exists|j: int|
                        0 <= j < i + 1 && loaded@[j].conversation_id@ == k
                            && records.contents()[k] == loaded@[j]@
                            && forall|m: int|
                                j < m < i + 1 ==> loaded@[m].conversation_id@ != k by {
                    if k == loaded@[i as int].conversation_id@ {
                        assert(records.contents()[k] == loaded@[i as int]@);
                    } else {
                        assert(prev.contains_key(k));
                        let j = choose|j: int|
                            0 <= j < i && loaded@[j].conversation_id@ == k
                                && prev[k] == loaded@[j]@
                                && forall|m: int| j < m < i ==> loaded@[m].conversation_id@ != k;
                        assert(records.contents()[k] == loaded@[j]@);
                    }
                }
            }
            i = i + 1;
        }
        JsonConversationRepository { path, records }
    }

    /// The path of the conversation file.
    pub fn path(&self) -> (r: &String)
        ensures
            *r == self.file_path(),
    {
        &self.path
    }

    /// Saves a record, replacing the one with the same conversation id.
    pub fn save(&mut self, record: ConversationRecord)
        ensures
            final(self).contents() == old(self).contents().insert(
                record.conversation_id@,
                record@,
            ),
            final(self).file_path() == old(self).file_path(),
    {
        self.records.save(record);
    }

    /// The record of a conversation, if stored.
    pub fn load(&self, conversation_id: &str) -> (r: Option<ConversationRecord>)
        ensures
            r is Some <==> self.contents().contains_key(conversation_id@),
            r matches Some(rec) ==> rec@ == self.contents()[conversation_id@],
    {
        self.records.load(conversation_id)
    }

    /// Every record, most recently updated first, ties by conversation id.
    pub fn list(&self) -> (r: Vec<ConversationRecord>)
        ensures
            crate::catalog::is_listed::<ConversationRecord>(crate::catalog::views(r@)),
            lists_records(self.contents(), r@),
    {
        self.records.list()
    }
}

/// Whether `records` lists exactly the records of `contents`: each listed
/// record is the stored one of its conversation, and each stored record is
/// listed.
pub open spec fn lists_records(
    contents: Map<Seq<char>, ConversationRecordView>,
    records: Seq<ConversationRecord>,
) -> bool {
    &&& forall|i: int|
        0 <= i < records.len() ==> contents.contains_key(#[trigger] records[i]@.conversation_id@)
            && contents[records[i]@.conversation_id@] == records[i]@
    &&& forall|k: Seq<char>|
        #[trigger] contents.contains_key(k) ==> exists|i: int|
            0 <= i < records.len() && records[i].conversation_id@ == k
}

/// Whether `contents` holds what a read of `records` gives: one record per
/// listed conversation, the last listed one where a conversation is listed
/// twice.
pub open spec fn read_from_records(
    contents: Map<Seq<char>, ConversationRecordView>,
    records: Seq<ConversationRecord>,
) -> bool {
    &&& forall|k: Seq<char>|
        #[trigger] contents.contains_key(k) <==> exists|i: int|
            0 <= i < records.len() && records[i].conversation_id@ == k
    &&& forall|k: Seq<char>|
        #[trigger] contents.contains_key(k) ==> exists|i: int|
            0 <= i < records.len() && records[i].conversation_id@ == k && contents[k] == records[i]@
                && forall|j: int| i < j < records.len() ==> records[j].conversation_id@ != k
}

/// Reopening the conversation file that a repository writes gives back its
/// records: for `file` as `list` hands it out of `written`, a repository read
/// from `file` holds what `written` holds.
pub proof fn lemma_reopened_records_give_back(
    written: JsonConversationRepository,
    file: Seq<ConversationRecord>,
    reopened: JsonConversationRepository,
)
    requires
        lists_records(written.contents(), file),
        read_from_records(reopened.contents(), file),
    ensures
        reopened.contents() == written.contents(),
{
    let read = reopened.contents();
    let kept = written.contents();
    assert forall|k: Seq<char>| #[trigger] read.contains_key(k) <==> kept.contains_key(k) by {
        if read.contains_key(k) {
            let i = choose|i: int| 0 <= i < file.len() && file[i].conversation_id@ == k;
            assert(kept.contains_key(file[i]@.conversation_id@));
        }
    }
    assert forall|k: Seq<char>| #[trigger] read.contains_key(k) implies read[k] == kept[k] by {
        let i = choose|i: int|
            0 <= i < file.len() && file[i].conversation_id@ == k && read[k] == file[i]@
                && forall|j: int| i < j < file.len() ==> file[j].conversation_id@ != k;
        assert(kept.contains_key(file[i]@.conversation_id@));
    }
    assert(read =~= kept);
}


/// Reopening the conversation file that a repository writes lists the same
/// records in the same order: for `file` as `list` hands it out of
/// `written`, the listing `listed` of a repository read from `file` is
/// `file` again.
pub proof fn lemma_reopened_records_list_the_same(
    written: JsonConversationRepository,
    file: Seq<ConversationRecord>,
    reopened: JsonConversationRepository,
    listed: Seq<ConversationRecord>,
)
    requires
        crate::catalog::is_listed::<ConversationRecord>(crate::catalog::views(file)),
        lists_records(written.contents(), file),
        read_from_records(reopened.contents(), file),
        crate::catalog::is_listed::<ConversationRecord>(crate::catalog::views(listed)),
        lists_records(reopened.contents(), listed),
    ensures
        crate::catalog::views(listed) == crate::catalog::views(file),
{
    lemma_reopened_records_give_back(written, file, reopened);
    let a = crate::catalog::views(listed);
    let b = crate::catalog::views(file);
    let c = written.contents();
    assert forall|x: ConversationRecordView| a.contains(x) <==> b.contains(x) by {
        if a.contains(x) {
            let i = choose|i: int| 0 <= i < a.len() && a[i] == x;
            assert(a[i] == listed[i]@);
            assert(c.contains_key(listed[i]@.conversation_id@));
            let j = choose|j: int|
                0 <= j < file.len() && file[j].conversation_id@ == listed[i]@.conversation_id@;
            assert(c.contains_key(file[j]@.conversation_id@));
            assert(b[j] == file[j]@);
        }
        if b.contains(x) {
            let i = choose|i: int| 0 <= i < b.len() && b[i] == x;
            assert(b[i] == file[i]@);
            assert(c.contains_key(file[i]@.conversation_id@));
            let j = choose|j: int|
                0 <= j < listed.len() && listed[j].conversation_id@ == file[i]@.conversation_id@;
            assert(c.contains_key(listed[j]@.conversation_id@));
            assert(a[j] == listed[j]@);
        }
    }
    crate::catalog::lemma_listing_unique::<ConversationRecord>(a, b);
}

/// Whether `s` stores conversation message `m`: the same kind and texts,
/// each tool call stored in turn.
pub open spec fn message_stored_is(m: TurnMessage, s: StoredConversationMessage) -> bool {
    match (m, s) {
        (TurnMessage::User { content }, StoredConversationMessage::User { content: c }) => c == content,
        (TurnMessage::AssistantText { content }, StoredConversationMessage::AssistantText { content: c }) => c
            == content,
        (
            TurnMessage::AssistantToolCalls { content, calls },
            StoredConversationMessage::AssistantToolCalls { content: c, calls: stored },
        ) => c == content && stored@.len() == calls@.len() && forall|i: int|
            0 <= i < calls@.len() ==> stored_is(calls@[i], #[trigger] stored@[i]),
        (
            TurnMessage::ToolResult { call_id, tool_name, content, is_error },
            StoredConversationMessage::ToolResult { call_id: ci, tool_name: tn, content: c, is_error: e },
        ) => ci == call_id && tn == tool_name && c == content && e == is_error,
        (TurnMessage::SystemNote { content }, StoredConversationMessage::SystemNote { content: c }) => c
            == content,
        _ => false,
    }
}

/// Whether `m` is the conversation message that `s` restores: the same kind
/// and texts, each tool call restored in turn.
pub open spec fn message_restored_is(s: StoredMessageView, m: TurnMessage) -> bool {
    match (s, m) {
        (StoredMessageView::User { content }, TurnMessage::User { content: c }) => c == content,
        (StoredMessageView::AssistantText { content }, TurnMessage::AssistantText { content: c }) => c
            == content,
        (
            StoredMessageView::AssistantToolCalls { content, calls: stored },
            TurnMessage::AssistantToolCalls { content: c, calls },
        ) => c == content && calls@.len() == stored.len() && forall|i: int|
            0 <= i < stored.len() ==> restored_is(stored[i], #[trigger] calls@[i]),
        (
            StoredMessageView::ToolResult { call_id, tool_name, content, is_error },
            TurnMessage::ToolResult { call_id: ci, tool_name: tn, content: c, is_error: e },
        ) => ci == call_id && tn == tool_name && c == content && e == is_error,
        (StoredMessageView::SystemNote { content }, TurnMessage::SystemNote { content: c }) => c
            == content,
        _ => false,
    }
}

impl StoredConversationMessage {
    /// The persisted form of a conversation message.
    pub fn from_turn_message(message: &TurnMessage) -> (s: StoredConversationMessage)
        ensures
            message_stored_is(*message, s),
    {
        match message {
            TurnMessage::User { content } => StoredConversationMessage::User { content: content.clone() },
            TurnMessage::AssistantText { content } => StoredConversationMessage::AssistantText {
                content: content.clone(),
            },
            TurnMessage::AssistantToolCalls { content, calls } => {
                let mut stored: Vec<StoredToolCall> = Vec::new();
                let mut i: usize = 0;
                while i < calls.len()
                    invariant
                        i <= calls@.len(),
                        stored@.len() == i,
                        forall|k: int| 0 <= k < i ==> stored_is(calls@[k], #[trigger] stored@[k]),
                    decreases calls@.len() - i,
                {
                    stored.push(StoredToolCall::from_tool_call(&calls[i]));
                    i = i + 1;
                }
                StoredConversationMessage::AssistantToolCalls { content: clone_opt(content), calls: stored }
            },
            TurnMessage::ToolResult { call_id, tool_name, content, is_error } => {
                StoredConversationMessage::ToolResult {
                    call_id: call_id.clone(),
                    tool_name: tool_name.clone(),
                    content: content.clone(),
                    is_error: *is_error,
                }
            },
            TurnMessage::SystemNote { content } => StoredConversationMessage::SystemNote {
                content: content.clone(),
            },
        }
    }

    /// The conversation message that this persisted form restores.
    pub fn into_turn_message(self) -> (m: TurnMessage)
        ensures
            message_restored_is(self@, m),
    {
        match self {
            StoredConversationMessage::User { content } => TurnMessage::User { content },
            StoredConversationMessage::AssistantText { content } => TurnMessage::AssistantText { content },
            StoredConversationMessage::AssistantToolCalls { content, calls } => {
                let mut restored: Vec<ToolCall> = Vec::new();
                let mut i: usize = 0;
                while i < calls.len()
                    invariant
                        i <= calls@.len(),
                        restored@.len() == i,
                        forall|k: int| 0 <= k < i ==> restored_is(calls@[k], #[trigger] restored@[k]),
                    decreases calls@.len() - i,
                {
                    let c = calls[i].clone();
                    restored.push(c.into_tool_call());
                    i = i + 1;
                }
                TurnMessage::AssistantToolCalls { content, calls: restored }
            },
            StoredConversationMessage::ToolResult { call_id, tool_name, content, is_error } => {
                TurnMessage::ToolResult { call_id, tool_name, content, is_error }
            },
            StoredConversationMessage::SystemNote { content } => TurnMessage::SystemNote { content },
        }
    }
}

/// Whether some tool call of message `m` could come back as another call
/// from storage (see `storage_ambiguous`).
pub open spec fn message_storage_ambiguous(m: TurnMessage) -> bool {
    match m {
        TurnMessage::AssistantToolCalls { calls, .. } => exists|i: int|
            0 <= i < calls@.len() && storage_ambiguous(#[trigger] calls@[i]),
        _ => false,
    }
}

/// Storing a conversation message and restoring it gives the same message
/// back, unless one of its tool calls names an unknown tool or MCP kind
/// with a known spelling.
pub proof fn lemma_message_storage_roundtrip(m: TurnMessage, s: StoredConversationMessage, back: TurnMessage)
    requires
        message_stored_is(m, s),
        message_restored_is(s@, back),
        !message_storage_ambiguous(m),
    ensures
        back@ == m@,
{
    match (m, s, back) {
        (
            TurnMessage::AssistantToolCalls { content, calls },
            StoredConversationMessage::AssistantToolCalls { content: sc, calls: stored },
            TurnMessage::AssistantToolCalls { content: bc, calls: restored },
        ) => {
            assert forall|i: int| 0 <= i < calls@.len() implies restored@[i] == calls@[i] by {
                assert(stored_is(calls@[i], stored@[i]));
                assert(restored_is(stored@[i], restored@[i]));
                assert(!storage_ambiguous(calls@[i]));
                lemma_tool_call_storage_roundtrip(calls@[i], stored@[i], restored@[i]);
            }
            assert(restored@ =~= calls@);
        },
        _ => {},
    }
}


/// Whether `stored` stores the messages `history`, one for one.
pub open spec fn history_stored_is(history: Seq<TurnMessage>, stored: Seq<StoredConversationMessage>) -> bool {
    stored.len() == history.len() && forall|i: int|
        0 <= i < history.len() ==> message_stored_is(history[i], #[trigger] stored[i])
}

/// Whether `history` is what the stored messages `stored` restore, one for one.
pub open spec fn history_restored_is(stored: Seq<StoredConversationMessage>, history: Seq<TurnMessage>) -> bool {
    history.len() == stored.len() && forall|i: int|
        0 <= i < stored.len() ==> message_restored_is(stored[i]@, #[trigger] history[i])
}

/// The persisted form of a conversation history.
pub fn store_history(history: &Vec<TurnMessage>) -> (r: Vec<StoredConversationMessage>)
    ensures
        history_stored_is(history@, r@),
{
    let mut stored: Vec<StoredConversationMessage> = Vec::new();
    let mut i: usize = 0;
    while i < history.len()
        invariant
            i <= history@.len(),
            stored@.len() == i,
            forall|k: int| 0 <= k < i ==> message_stored_is(history@[k], #[trigger] stored@[k]),
        decreases history@.len() - i,
    {
        stored.push(StoredConversationMessage::from_turn_message(&history[i]));
        i = i + 1;
    }
    stored
}

/// The conversation history that persisted messages restore.
pub fn restore_history(stored: &Vec<StoredConversationMessage>) -> (r: Vec<TurnMessage>)
    ensures
        history_restored_is(stored@, r@),
{
    let mut history: Vec<TurnMessage> = Vec::new();
    let mut i: usize = 0;
    while i < stored.len()
        invariant
            i <= stored@.len(),
            history@.len() == i,
            forall|k: int| 0 <= k < i ==> message_restored_is(stored@[k]@, #[trigger] history@[k]),
        decreases stored@.len() - i,
    {
        let copy = stored[i].duplicate();
        history.push(copy.into_turn_message());
        i = i + 1;
    }
    history
}

impl ConversationRecord {
    /// The record of a conversation with `history`, as of `updated_at_ms`.
    pub fn from_snapshot(
        conversation_id: String,
        target_kind: TurnTargetKind,
        target_id: String,
        history: &Vec<TurnMessage>,
        updated_at_ms: u64,
    ) -> (r: ConversationRecord)
        ensures
            r.conversation_id == conversation_id,
            r.target_kind == target_kind,
            r.target_id == target_id,
            history_stored_is(history@, r.history@),
            r.updated_at_ms == updated_at_ms,
    {
        ConversationRecord { conversation_id, target_kind, target_id, history: store_history(history), updated_at_ms }
    }

    /// The conversation history this record restores.
    pub fn to_snapshot(&self) -> (r: Vec<TurnMessage>)
        ensures
            history_restored_is(self.history@, r@),
    {
        restore_history(&self.history)
    }
}

} // verus!
