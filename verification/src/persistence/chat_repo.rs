//! Listing the chat messages of a session: the query asked of the database,
//! the message each stored transcript item shows as, and their order.
use vstd::prelude::*;

use crate::text::{decimal, owned, push_char, push_decimal, push_str, trim, is_blank};

verus! {

/// Why chat messages could not be listed.
#[derive(Debug, PartialEq, Eq)]
pub enum ChatRepoError {
    Schema(String),
    Sqlite(String),
    Serde(String),
}

/// The text of a chat listing error.
pub open spec fn chat_repo_error_text(e: ChatRepoError) -> Seq<char> {
    match e {
        ChatRepoError::Schema(m) => "schema error: "@ + m@,
        ChatRepoError::Sqlite(m) => "sqlite error: "@ + m@,
        ChatRepoError::Serde(m) => "serde error: "@ + m@,
    }
}

impl ChatRepoError {
    /// The text of this error.
    pub fn to_string(&self) -> (r: String)
        ensures
            r@ == chat_repo_error_text(*self),
    {
        let (prefix, m) = match self {
            ChatRepoError::Schema(m) => ("schema error: ", m),
            ChatRepoError::Sqlite(m) => ("sqlite error: ", m),
            ChatRepoError::Serde(m) => ("serde error: ", m),
        };
        let mut out = owned(prefix);
        push_str(&mut out, m.as_str());
        proof {
            reveal_strlit("schema error: ");
            reveal_strlit("sqlite error: ");
            reveal_strlit("serde error: ");
        }
        out
    }
}

/// One day, in milliseconds.
pub const DAY_MS: i64 = 86400000;

/// Which messages a listing covers.
#[derive(Debug, Clone, Copy, PartialEq, Eq, Structural)]
pub enum ChatMessageRange {
    Last24Hours,
    All,
}

/// A page of messages: the range, the cursor below which to list, and the
/// most messages to list.
#[derive(Debug, Clone, Copy)]
pub struct ChatMessageQuery {
    pub range: ChatMessageRange,
    pub cursor: Option<i64>,
    pub limit: usize,
}

impl Default for ChatMessageQuery {
    fn default() -> (r: ChatMessageQuery)
        ensures
            r.range == ChatMessageRange::Last24Hours,
            r.cursor is None,
            r.limit == 300,
    {
        ChatMessageQuery { range: ChatMessageRange::Last24Hours, cursor: None, limit: 300 }
    }
}

/// A message as listed.
#[derive(Debug, Clone, PartialEq, Eq)]
pub struct StoredChatMessage {
    pub id: String,
    pub session_id: String,
    pub role: String,
    pub content: String,
    pub created_at: i64,
    pub cursor: i64,
}

/// The message store of a database file.
#[derive(Debug)]
pub struct ChatRepo {
    db_path: String,
}

impl ChatRepo {
    /// The path of the database file.
    pub closed spec fn path(&self) -> Seq<char> {
        self.db_path@
    }

    /// The store of the database at `db_path`, which the caller has opened
    /// and brought to the current schema.
    pub fn new(db_path: String) -> (r: ChatRepo)
        ensures
            r.path() == db_path@,
    {
        ChatRepo { db_path }
    }

    /// The path of the database file.
    pub fn db_path(&self) -> (r: &str)
        ensures
            r@ == self.path(),
    {
        self.db_path.as_str()
    }
}

/// A value bound to a query parameter.
#[derive(Debug, Clone, PartialEq, Eq)]
pub enum SqlValue {
    Text(String),
    Integer(i64),
}

/// The listing query's text before its conditions.
pub open spec fn base_listing_sql() -> Seq<char> {
    "SELECT ti.id, ti.session_id, ti.turn_id, ti.seq, ti.payload_json, COALESCE(t.ended_at_ms, t.started_at_ms, tc.started_at_ms, 0) AS turn_time FROM transcript_items ti LEFT JOIN turns t ON t.turn_id = ti.turn_id AND t.session_id = ti.session_id LEFT JOIN turn_contexts tc ON tc.turn_id = ti.turn_id AND tc.session_id = ti.session_id WHERE ti.session_id = ?"@
}

/// The condition on the turn time of the last day.
pub open spec fn recent_condition() -> Seq<char> {
    " AND COALESCE(t.ended_at_ms, t.started_at_ms, tc.started_at_ms, 0) >= ? "@
}

/// The condition on the cursor.
pub open spec fn cursor_condition() -> Seq<char> {
    " AND ti.id < ? "@
}

/// The order and limit of the listing.
pub open spec fn order_clause() -> Seq<char> {
    " ORDER BY ti.id DESC LIMIT ? "@
}

/// The limit actually asked for: at least one message.
pub open spec fn effective_limit(limit: usize) -> usize {
    if limit < 1 { 1 } else { limit }
}

/// The listing query for a session and page at time `now_ms`: the base
/// query; for the last day a lower bound on the turn time; under a cursor an
/// upper bound on the id; newest first, limited. Its parameters follow the
/// same order.
pub fn message_query(session_id: &str, query: ChatMessageQuery, now_ms: i64) -> (r: (
    String,
    Vec<SqlValue>,
))
    requires
        query.range == ChatMessageRange::Last24Hours ==> now_ms >= i64::MIN + DAY_MS,
    ensures
        r.0@ == base_listing_sql() + (if query.range == ChatMessageRange::Last24Hours {
            recent_condition()
        } else {
            Seq::empty()
        }) + (if query.cursor is Some {
            cursor_condition()
        } else {
            Seq::empty()
        }) + order_clause(),
        r.1@ == seq![SqlValue::Text(r.1@[0]->Text_0)] + (if query.range
            == ChatMessageRange::Last24Hours {
            seq![SqlValue::Integer((now_ms - DAY_MS) as i64)]
        } else {
            Seq::empty()
        }) + (match query.cursor {
            Some(c) => seq![SqlValue::Integer(c)],
            None => Seq::empty(),
        }) + seq![SqlValue::Integer(effective_limit(query.limit) as i64)],
        r.1@[0] matches SqlValue::Text(s) && s@ == session_id@,
{
    let mut sql = owned(
        "SELECT ti.id, ti.session_id, ti.turn_id, ti.seq, ti.payload_json, COALESCE(t.ended_at_ms, t.started_at_ms, tc.started_at_ms, 0) AS turn_time FROM transcript_items ti LEFT JOIN turns t ON t.turn_id = ti.turn_id AND t.session_id = ti.session_id LEFT JOIN turn_contexts tc ON tc.turn_id = ti.turn_id AND tc.session_id = ti.session_id WHERE ti.session_id = ?",
    );
    let mut binds: Vec<SqlValue> = Vec::new();
    binds.push(SqlValue::Text(owned(session_id)));
    let ghost s0 = sql@;
    let ghost b0 = binds@;
    if query.range == ChatMessageRange::Last24Hours {
        push_str(&mut sql, " AND COALESCE(t.ended_at_ms, t.started_at_ms, tc.started_at_ms, 0) >= ? ");
        binds.push(SqlValue::Integer(now_ms - DAY_MS));
    }
    let ghost s1 = sql@;
    let ghost b1 = binds@;
    match query.cursor {
        Some(c) => {
            push_str(&mut sql, " AND ti.id < ? ");
            binds.push(SqlValue::Integer(c));
        },
        None => {},
    }
    let ghost s2 = sql@;
    let ghost b2 = binds@;
    push_str(&mut sql, " ORDER BY ti.id DESC LIMIT ? ");
    let limit = if query.limit < 1 { 1 } else { query.limit };
    binds.push(SqlValue::Integer(limit as i64));
    assert(s1 =~= s0 + (if query.range == ChatMessageRange::Last24Hours {
        recent_condition()
    } else {
        Seq::empty()
    }));
    assert(s2 =~= s1 + (if query.cursor is Some {
        cursor_condition()
    } else {
        Seq::empty()
    }));
    assert(b1 =~= b0 + (if query.range == ChatMessageRange::Last24Hours {
        seq![SqlValue::Integer((now_ms - DAY_MS) as i64)]
    } else {
        Seq::empty()
    }));
    assert(b2 =~= b1 + (match query.cursor {
        Some(c) => seq![SqlValue::Integer(c)],
        None => Seq::empty(),
    }));
    assert(binds@ =~= seq![SqlValue::Text(binds@[0]->Text_0)] + (if query.range
        == ChatMessageRange::Last24Hours {
        seq![SqlValue::Integer((now_ms - DAY_MS) as i64)]
    } else {
        Seq::empty()
    }) + (match query.cursor {
        Some(c) => seq![SqlValue::Integer(c)],
        None => Seq::empty(),
    }) + seq![SqlValue::Integer(effective_limit(query.limit) as i64)]);
    (sql, binds)
}

/// A stored transcript item, as far as the listing reads it: the text of
/// each part of a user message (JSON parts rendered as JSON text), the text
/// of an assistant message or system note, or another kind of item.
#[derive(Debug, Clone, PartialEq, Eq)]
pub enum TranscriptEntry {
    UserMessage { parts: Vec<String> },
    AssistantMessage { text: String },
    SystemNote { message: String },
    Other,
}

/// The non-blank parts of a user message joined by line breaks.
pub open spec fn joined_parts(parts: Seq<String>) -> Seq<char>
    decreases parts.len(),
{
    if parts.len() == 0 {
        Seq::empty()
    } else {
        let prev = joined_parts(parts.drop_last());
        let p = parts.last()@;
        if trim(p).len() == 0 {
            prev
        } else if prev.len() == 0 {
            p
        } else {
            prev + seq!['\n'] + p
        }
    }
}

/// The role and content an item shows as: a user message with some
/// non-blank part, an assistant message, or a system note; other items and
/// blank user messages are not listed.
pub open spec fn shown_as(item: TranscriptEntry) -> Option<(Seq<char>, Seq<char>)> {
    match item {
        TranscriptEntry::UserMessage { parts } => if joined_parts(parts@).len() == 0 {
            None
        } else {
            Some(("user"@, joined_parts(parts@)))
        },
        TranscriptEntry::AssistantMessage { text } => Some(("assistant"@, text@)),
        TranscriptEntry::SystemNote { message } => Some(("system"@, message@)),
        TranscriptEntry::Other => None,
    }
}

/// The role and content an item shows as, if it is listed.
pub fn transcript_item_to_role_and_content(item: TranscriptEntry) -> (r: Option<(String, String)>)
    ensures
        match shown_as(item) {
            Some(p) => r matches Some(q) && q.0@ == p.0 && q.1@ == p.1,
            None => r is None,
        },
{
    match item {
        TranscriptEntry::UserMessage { parts } => {
            let mut content = String::new();
            let mut i: usize = 0;
            assert(parts@.subrange(0, 0) =~= Seq::<String>::empty());
            while i < parts.len()
                invariant
                    i <= parts@.len(),
                    content@ == joined_parts(parts@.subrange(0, i as int)),
                decreases parts@.len() - i,
            {
                let part = &parts[i];
                assert(parts@.subrange(0, i + 1).drop_last() =~= parts@.subrange(0, i as int));
                if !is_blank(part.as_str()) {
                    if content.as_str().is_empty() {
                        push_str(&mut content, part.as_str());
                    } else {
                        push_char(&mut content, '\n');
                        push_str(&mut content, part.as_str());
                    }
                }
                i = i + 1;
            }
            assert(parts@.subrange(0, parts@.len() as int) =~= parts@);
            if content.as_str().is_empty() {
                return None;
            }
            Some((owned("user"), content))
        },
        TranscriptEntry::AssistantMessage { text } => Some((owned("assistant"), text)),
        TranscriptEntry::SystemNote { message } => Some((owned("system"), message)),
        TranscriptEntry::Other => None,
    }
}

/// The decimal text of a signed integer.
pub open spec fn signed_decimal(n: int) -> Seq<char> {
    if n < 0 {
        seq!['-'] + decimal((-n) as nat)
    } else {
        decimal(n as nat)
    }
}

/// The time a message is listed at: its turn's time plus its position in
/// the turn, held at the bounds of `i64`.
pub open spec fn listed_time(turn_time: i64, seq: i64) -> i64 {
    if turn_time + seq > i64::MAX {
        i64::MAX
    } else if turn_time + seq < i64::MIN {
        i64::MIN
    } else {
        (turn_time + seq) as i64
    }
}

/// The listed message of a stored row: its id is its cursor in decimal.
pub fn chat_message(
    cursor: i64,
    session_id: String,
    seq: i64,
    turn_time: i64,
    role: String,
    content: String,
) -> (r: StoredChatMessage)
    ensures
        r.id@ == signed_decimal(cursor as int),
        r.session_id == session_id,
        r.role == role,
        r.content == content,
        r.created_at == listed_time(turn_time, seq),
        r.cursor == cursor,
{
    let mut id = String::new();
    if cursor < 0 {
        push_char(&mut id, '-');
        let magnitude = (0i128 - cursor as i128) as u64;
        push_decimal(&mut id, magnitude);
    } else {
        push_decimal(&mut id, cursor as u64);
    }
    let sum = turn_time as i128 + seq as i128;
    let created_at: i64 = if sum > i64::MAX as i128 {
        i64::MAX
    } else if sum < i64::MIN as i128 {
        i64::MIN
    } else {
        sum as i64
    };
    StoredChatMessage { id, session_id, role, content, created_at, cursor }
}

/// Whether `s` is in order of cursor, lowest first.
pub open spec fn cursor_sorted(s: Seq<StoredChatMessage>) -> bool {
    forall|i: int, j: int| 0 <= i < j < s.len() ==> s[i].cursor <= s[j].cursor
}

/// Orders listed messages by cursor, lowest first, keeping the order of
/// messages with equal cursors.
pub fn sort_by_cursor(messages: Vec<StoredChatMessage>) -> (r: Vec<StoredChatMessage>)
    ensures
        cursor_sorted(r@),
        r@.to_multiset() == messages@.to_multiset(),
{
    let mut rest = messages;
    let mut out: Vec<StoredChatMessage> = Vec::new();
    let ghost all = rest@;
    proof {
        vstd::seq_lib::lemma_multiset_commutative(out@, rest@);
        assert(out@ + rest@ =~= all);
    }
    while rest.len() > 0
        invariant
            cursor_sorted(out@),
            out@.to_multiset().add(rest@.to_multiset()) == all.to_multiset(),
        decreases rest@.len(),
    {
        let ghost before_rest = rest@;
        let ghost before_out = out@;
        let item = rest.remove(0);
        proof {
            vstd::seq_lib::to_multiset_remove(before_rest, 0);
        }
        let mut p: usize = out.len();
        while p > 0 && out[p - 1].cursor > item.cursor
            invariant
                p <= out@.len(),
                out@ == before_out,
                forall|q: int| p <= q < out@.len() ==> out@[q].cursor > item.cursor,
            decreases p,
        {
            p = p - 1;
        }
        out.insert(p, item);
        proof {
            vstd::seq_lib::to_multiset_insert(before_out, p as int, item);
            assert forall|i: int, j: int| 0 <= i < j < out@.len() implies out@[i].cursor
                <= out@[j].cursor by {
                if j < p {
                    assert(out@[i] == before_out[i]);
                    assert(out@[j] == before_out[j]);
                } else if j == p {
                    assert(out@[i] == before_out[i]);
                    if p > 0 {
                        assert(before_out[p - 1].cursor <= item.cursor);
                        assert(before_out[i].cursor <= before_out[p - 1].cursor);
                    }
                } else if i < p {
                    assert(out@[i] == before_out[i]);
                    assert(out@[j] == before_out[j - 1]);
                } else if i == p {
                    assert(out@[j] == before_out[j - 1]);
                } else {
                    assert(out@[i] == before_out[i - 1]);
                    assert(out@[j] == before_out[j - 1]);
                }
            }
            broadcast use vstd::multiset::group_multiset_axioms;
            vstd::seq_lib::to_multiset_contains(before_rest, item);
            assert(before_rest[0] == item);
            assert(before_rest.to_multiset().count(item) > 0);
            assert(out@.to_multiset().add(rest@.to_multiset()) =~= all.to_multiset());
        }
    }
    proof {
        assert(rest@ =~= Seq::<StoredChatMessage>::empty());
        assert(out@.to_multiset().add(rest@.to_multiset()) =~= out@.to_multiset());
    }
    out
}

} // verus!
