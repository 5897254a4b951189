//! The conversations of the desktop chat: which exist, which is active, which
//! runs a turn, and what each step of a turn's life does to them. Running a
//! turn, cancelling it and persisting records are done by the caller with the
//! values these steps hand out.
use vstd::prelude::*;

use crate::catalog::{is_listed, lex_lt, views, Catalog, Keyed};
use crate::chat::checkpoints::{
    ConversationCheckpointRecord, CreateConversationCheckpointInput,
    RestoreConversationCheckpointInput,
};
use crate::chat::compression::{
    compressed_view, ConversationCompressionPolicy, NoopConversationCompressionPolicy,
};
use crate::chat::error::{is_random_failure, random_unavailable, TurnError};
use crate::chat::events::{ContinueConversationInput, StartConversationInput, TurnTargetKind};
use crate::chat::storage::{
    clone_history, clone_opt, views as message_views, ConversationRecord, ConversationRecordView,
    StoredConversationMessage, StoredMessageView,
};
use crate::chat::threads::{
    summary_of, ConversationThreadRecord, ConversationThreadSummary,
    CreateConversationThreadInput, RestartConversationInput, ThreadStatus,
};
use crate::primitives::{is_generated_id, new_uuid_string};
use crate::text::{chars_of, first_line, index_of, owned, push_str, string_from_range, trim, trim_str};

verus! {

/// The title given to a conversation whose prompt has no text.
pub open spec fn untitled() -> Seq<char> {
    "New Thread"@
}

/// The title of a conversation started with `prompt`: the first line of the
/// trimmed prompt, cut to 48 characters, or "New Thread" where that is empty.
pub open spec fn conversation_title_of(prompt: Seq<char>) -> Seq<char> {
    let t = trim(prompt);
    let line = first_line(t);
    let title = if line.len() > 48 { line.subrange(0, 48) } else { line };
    if t.len() == 0 || title.len() == 0 { untitled() } else { title }
}

/// The title of a conversation started with `prompt`.
pub fn conversation_title(prompt: &str) -> (r: String)
    ensures
        r@ == conversation_title_of(prompt@),
{
    let trimmed = trim_str(prompt);
    let v = chars_of(trimmed.as_str());
    let mut end = index_of(&v, '\n');
    if end > 0 && v[end - 1] == '\r' {
        end = end - 1;
    }
    let take = if end > 48 { 48 } else { end };
    if v.len() == 0 || take == 0 {
        return owned("New Thread");
    }
    let title = string_from_range(&v, 0, take);
    proof {
        let line = first_line(v@);
        assert(v@.subrange(0, take as int) =~= (if line.len() > 48 { line.subrange(0, 48) } else { line }));
    }
    title
}

/// The index of the first user message of `h` at or after `i`, or `h.len()`.
pub open spec fn first_user_from(h: Seq<StoredMessageView>, i: int) -> int
    decreases h.len() - i,
{
    if i < 0 || i >= h.len() {
        h.len() as int
    } else if h[i] is User {
        i
    } else {
        first_user_from(h, i + 1)
    }
}

/// The title of a conversation loaded from storage: that of its first user
/// message, or its target id where it has none.
pub open spec fn history_title(h: Seq<StoredMessageView>, target_id: Seq<char>) -> Seq<char> {
    let i = first_user_from(h, 0);
    if 0 <= i < h.len() {
        conversation_title_of(h[i]->User_content@)
    } else {
        target_id
    }
}

/// The title of a conversation loaded from storage.
pub fn title_from_history(history: &Vec<StoredConversationMessage>, target_id: &str) -> (r: String)
    ensures
        r@ == history_title(message_views(history@), target_id@),
{
    let ghost h = message_views(history@);
    let mut i: usize = 0;
    while i < history.len()
        invariant
            i <= history@.len(),
            h == message_views(history@),
            first_user_from(h, 0) == first_user_from(h, i as int),
        decreases history@.len() - i,
    {
        assert(h[i as int] == history@[i as int]@);
        match &history[i] {
            StoredConversationMessage::User { content } => {
                return conversation_title(content.as_str());
            },
            _ => {},
        }
        i = i + 1;
    }
    owned(target_id)
}

/// The view of an optional string.
pub open spec fn opt_view(o: Option<String>) -> Option<Seq<char>> {
    match o {
        Some(s) => Some(s@),
        None => None,
    }
}

/// A conversation held by the manager.
#[derive(Debug, PartialEq, Eq)]
pub struct ConversationState {
    pub conversation_id: String,
    pub title: String,
    pub target_kind: TurnTargetKind,
    pub target_id: String,
    pub history: Vec<StoredConversationMessage>,
    pub pending_prompt: Option<String>,
    pub status: ThreadStatus,
    pub updated_at_ms: u64,
    pub active_turn_id: Option<String>,
}

/// The content of a conversation.
pub struct ConversationStateView {
    pub conversation_id: Seq<char>,
    pub title: Seq<char>,
    pub target_kind: TurnTargetKind,
    pub target_id: Seq<char>,
    pub history: Seq<StoredMessageView>,
    pub pending_prompt: Option<Seq<char>>,
    pub status: ThreadStatus,
    pub updated_at_ms: u64,
    pub active_turn_id: Option<Seq<char>>,
}

impl View for ConversationState {
    type V = ConversationStateView;

    open spec fn view(&self) -> ConversationStateView {
        ConversationStateView {
            conversation_id: self.conversation_id@,
            title: self.title@,
            target_kind: self.target_kind,
            target_id: self.target_id@,
            history: message_views(self.history@),
            pending_prompt: opt_view(self.pending_prompt),
            status: self.status,
            updated_at_ms: self.updated_at_ms,
            active_turn_id: opt_view(self.active_turn_id),
        }
    }
}

impl Keyed for ConversationState {
    open spec fn key_of(v: ConversationStateView) -> Seq<char> {
        v.conversation_id
    }

    open spec fn stamp_of(v: ConversationStateView) -> u64 {
        v.updated_at_ms
    }

    fn key(&self) -> (r: &str) {
        self.conversation_id.as_str()
    }

    fn stamp(&self) -> (r: u64) {
        self.updated_at_ms
    }

    fn duplicate(&self) -> (r: ConversationState) {
        ConversationState {
            conversation_id: self.conversation_id.clone(),
            title: self.title.clone(),
            target_kind: self.target_kind,
            target_id: self.target_id.clone(),
            history: clone_history(&self.history),
            pending_prompt: clone_opt(&self.pending_prompt),
            status: self.status,
            updated_at_ms: self.updated_at_ms,
            active_turn_id: clone_opt(&self.active_turn_id),
        }
    }
}

/// Whether `r` is the persisted thread of conversation `s`.
pub open spec fn is_thread_record_of(s: ConversationStateView, r: ConversationThreadRecord) -> bool {
    &&& r.conversation_id@ == s.conversation_id
    &&& r.title@ == s.title
    &&& r.target_kind == s.target_kind
    &&& r.target_id@ == s.target_id
    &&& r.updated_at_ms == s.updated_at_ms
    &&& opt_view(r.pending_prompt) == s.pending_prompt
    &&& r.status == s.status
}

/// The persisted thread of a conversation.
pub fn thread_record(state: &ConversationState) -> (r: ConversationThreadRecord)
    ensures
        is_thread_record_of(state@, r),
{
    ConversationThreadRecord {
        conversation_id: state.conversation_id.clone(),
        title: state.title.clone(),
        target_kind: state.target_kind,
        target_id: state.target_id.clone(),
        updated_at_ms: state.updated_at_ms,
        pending_prompt: clone_opt(&state.pending_prompt),
        status: state.status,
    }
}

/// The persisted thread of a listed thread: no pending prompt.
pub fn thread_record_from_summary(summary: &ConversationThreadSummary) -> (r: ConversationThreadRecord)
    ensures
        r.conversation_id == summary.conversation_id,
        r.title == summary.title,
        r.target_kind == summary.target_kind,
        r.target_id == summary.target_id,
        r.updated_at_ms == summary.updated_at_ms,
        r.pending_prompt is None,
        r.status == summary.status,
{
    ConversationThreadRecord {
        conversation_id: summary.conversation_id.clone(),
        title: summary.title.clone(),
        target_kind: summary.target_kind,
        target_id: summary.target_id.clone(),
        updated_at_ms: summary.updated_at_ms,
        pending_prompt: None,
        status: summary.status,
    }
}

/// The status a thread read back from storage takes: a turn that was running
/// when the thread was saved can only be restarted.
pub open spec fn normalized_status(status: ThreadStatus) -> ThreadStatus {
    match status {
        ThreadStatus::Running => ThreadStatus::Restartable,
        other => other,
    }
}

/// The status a thread read back from storage takes.
pub fn normalize_thread_status(status: ThreadStatus) -> (r: ThreadStatus)
    ensures
        r == normalized_status(status),
        r != ThreadStatus::Running,
{
    match status {
        ThreadStatus::Running => ThreadStatus::Restartable,
        other => other,
    }
}

/// The conversation held for a stored record.
pub open spec fn loaded_state(r: ConversationRecordView) -> ConversationStateView {
    ConversationStateView {
        conversation_id: r.conversation_id@,
        title: history_title(r.history, r.target_id@),
        target_kind: r.target_kind,
        target_id: r.target_id@,
        history: r.history,
        pending_prompt: None,
        status: ThreadStatus::Idle,
        updated_at_ms: r.updated_at_ms,
        active_turn_id: None,
    }
}

/// The conversation held for a stored record.
pub fn conversation_state_from_record(record: ConversationRecord) -> (r: ConversationState)
    ensures
        r@ == loaded_state(record@),
{
    let title = title_from_history(&record.history, record.target_id.as_str());
    ConversationState {
        conversation_id: record.conversation_id,
        title,
        target_kind: record.target_kind,
        target_id: record.target_id,
        history: record.history,
        pending_prompt: None,
        status: ThreadStatus::Idle,
        updated_at_ms: record.updated_at_ms,
        active_turn_id: None,
    }
}

/// The conversations held for a sequence of stored records; of two records
/// with one id the later one counts.
pub open spec fn records_loaded(rs: Seq<ConversationRecordView>) -> Map<Seq<char>, ConversationStateView>
    decreases rs.len(),
{
    if rs.len() == 0 {
        Map::empty()
    } else {
        records_loaded(rs.drop_last()).insert(rs.last().conversation_id@, loaded_state(rs.last()))
    }
}

/// The larger of two time stamps.
pub open spec fn later(a: u64, b: u64) -> u64 {
    if a >= b { a } else { b }
}

/// `m` with the persisted thread `t` applied: the thread's title, target,
/// pending prompt and normalized status replace those of its conversation,
/// which keeps its history and the later of the two time stamps; a thread
/// without a conversation gets one with an empty history.
pub open spec fn merged_thread(
    m: Map<Seq<char>, ConversationStateView>,
    t: ConversationThreadRecord,
) -> Map<Seq<char>, ConversationStateView> {
    let k = t.conversation_id@;
    if m.contains_key(k) {
        let s = m[k];
        m.insert(k, ConversationStateView {
            conversation_id: s.conversation_id,
            title: t.title@,
            target_kind: t.target_kind,
            target_id: t.target_id@,
            history: s.history,
            pending_prompt: opt_view(t.pending_prompt),
            status: normalized_status(t.status),
            updated_at_ms: later(s.updated_at_ms, t.updated_at_ms),
            active_turn_id: s.active_turn_id,
        })
    } else {
        m.insert(k, ConversationStateView {
            conversation_id: k,
            title: t.title@,
            target_kind: t.target_kind,
            target_id: t.target_id@,
            history: Seq::empty(),
            pending_prompt: opt_view(t.pending_prompt),
            status: normalized_status(t.status),
            updated_at_ms: t.updated_at_ms,
            active_turn_id: None,
        })
    }
}

/// `m` with the persisted threads `ts` applied in order.
pub open spec fn threads_merged(
    m: Map<Seq<char>, ConversationStateView>,
    ts: Seq<ConversationThreadRecord>,
) -> Map<Seq<char>, ConversationStateView>
    decreases ts.len(),
{
    if ts.len() == 0 {
        m
    } else {
        merged_thread(threads_merged(m, ts.drop_last()), ts.last())
    }
}

/// Whether every conversation of `m` is keyed by its own id, runs no turn
/// and is not marked running.
pub open spec fn all_at_rest(m: Map<Seq<char>, ConversationStateView>) -> bool {
    forall|k: Seq<char>|
        #[trigger] m.contains_key(k) ==> {
            &&& m[k].conversation_id == k
            &&& m[k].active_turn_id is None
            &&& m[k].status != ThreadStatus::Running
        }
}

proof fn lemma_records_at_rest(rs: Seq<ConversationRecordView>)
    ensures
        all_at_rest(records_loaded(rs)),
    decreases rs.len(),
{
    if rs.len() > 0 {
        lemma_records_at_rest(rs.drop_last());
    }
}

proof fn lemma_threads_at_rest(m: Map<Seq<char>, ConversationStateView>, ts: Seq<ConversationThreadRecord>)
    requires
        all_at_rest(m),
    ensures
        all_at_rest(threads_merged(m, ts)),
    decreases ts.len(),
{
    if ts.len() > 0 {
        lemma_threads_at_rest(m, ts.drop_last());
    }
}

/// Every conversation read back from storage is at rest: no turn runs in it
/// and none is marked running, whatever the stored records and threads say.
pub proof fn lemma_loaded_conversations_at_rest(
    records: Seq<ConversationRecordView>,
    threads: Seq<ConversationThreadRecord>,
)
    ensures
        all_at_rest(threads_merged(records_loaded(records), threads)),
{
    lemma_records_at_rest(records);
    lemma_threads_at_rest(records_loaded(records), threads);
}

/// The conversations of the desktop chat, the active one, and the policy that
/// shrinks a conversation's record before it is stored.
pub struct ConversationManager<P> {
    conversations: Catalog<ConversationState>,
    active_conversation_id: Option<String>,
    compression: P,
}

impl ConversationManager<NoopConversationCompressionPolicy> {
    /// A manager with no conversation, which stores records as they are.
    pub fn new() -> (r: ConversationManager<NoopConversationCompressionPolicy>)
        ensures
            r.wf(),
            r.conversations() == Map::<Seq<char>, ConversationStateView>::empty(),
            r.active() is None,
    {
        ConversationManager {
            conversations: Catalog::new(),
            active_conversation_id: None,
            compression: NoopConversationCompressionPolicy,
        }
    }
}

impl<P: ConversationCompressionPolicy> ConversationManager<P> {
    /// The conversations, keyed by id.
    pub closed spec fn conversations(&self) -> Map<Seq<char>, ConversationStateView> {
        self.conversations.contents()
    }

    /// The active conversation, if any.
    pub closed spec fn active(&self) -> Option<Seq<char>> {
        opt_view(self.active_conversation_id)
    }

    /// The manager's invariant: the active conversation exists, and each
    /// conversation is keyed by its own id.
    pub closed spec fn wf(&self) -> bool {
        &&& (self.active() matches Some(k) ==> self.conversations().contains_key(k))
        &&& forall|k: Seq<char>|
            #[trigger] self.conversations().contains_key(k) ==> self.conversations()[k].conversation_id
                == k
    }

    /// The policy applied to a record before it is stored.
    pub closed spec fn compression(&self) -> P {
        self.compression
    }

    /// The manager for the stored records, the persisted threads and the
    /// persisted active thread: each record gives a conversation, each thread
    /// then updates its conversation or adds one, and the active thread stays
    /// active only where its conversation exists. Records are stored through
    /// `compression`.
    pub fn new_with_repositories(
        records: Vec<ConversationRecord>,
        threads: Vec<ConversationThreadRecord>,
        active_thread_id: Option<String>,
        compression: P,
    ) -> (r: ConversationManager<P>)
        ensures
            r.wf(),
            r.compression() == compression,
            r.conversations() == threads_merged(records_loaded(views(records@)), threads@),
            r.active() == (match active_thread_id {
                Some(id) => if r.conversations().contains_key(id@) {
                    Some(id@)
                } else {
                    None
                },
                None => None,
            }),
    {
        let mut conversations: Catalog<ConversationState> = Catalog::new();
        let ghost rs = views(records@);
        let mut i: usize = 0;
        assert(rs.subrange(0, 0) =~= Seq::<ConversationRecordView>::empty());
        while i < records.len()
            invariant
                i <= records@.len(),
                rs == views(records@),
                conversations.contents() == records_loaded(rs.subrange(0, i as int)),
            decreases records@.len() - i,
        {
            let rec = records[i].duplicate();
            let state = conversation_state_from_record(rec);
            conversations.save(state);
            assert(rs.subrange(0, i + 1).drop_last() =~= rs.subrange(0, i as int));
            assert(rs[i as int] == records@[i as int]@);
            i = i + 1;
        }
        assert(rs.subrange(0, rs.len() as int) =~= rs);
        let ghost base = records_loaded(rs);
        let mut j: usize = 0;
        assert(threads@.subrange(0, 0) =~= Seq::<ConversationThreadRecord>::empty());
        while j < threads.len()
            invariant
                j <= threads@.len(),
                conversations.contents() == threads_merged(base, threads@.subrange(0, j as int)),
            decreases threads@.len() - j,
        {
            let t = &threads[j];
            let ghost before = conversations.contents();
            match conversations.load(t.conversation_id.as_str()) {
                Some(found) => {
                    let mut st = found;
                    st.title = t.title.clone();
                    st.target_kind = t.target_kind;
                    st.target_id = t.target_id.clone();
                    if t.updated_at_ms > st.updated_at_ms {
                        st.updated_at_ms = t.updated_at_ms;
                    }
                    st.pending_prompt = clone_opt(&t.pending_prompt);
                    st.status = normalize_thread_status(t.status);
                    conversations.save(st);
                },
                None => {
                    let st = ConversationState {
                        conversation_id: t.conversation_id.clone(),
                        title: t.title.clone(),
                        target_kind: t.target_kind,
                        target_id: t.target_id.clone(),
                        history: Vec::new(),
                        pending_prompt: clone_opt(&t.pending_prompt),
                        status: normalize_thread_status(t.status),
                        updated_at_ms: t.updated_at_ms,
                        active_turn_id: None,
                    };
                    assert(message_views(st.history@) =~= Seq::<StoredMessageView>::empty());
                    conversations.save(st);
                },
            }
            assert(threads@.subrange(0, j + 1).drop_last() =~= threads@.subrange(0, j as int));
            assert(conversations.contents() =~= merged_thread(before, threads@[j as int]));
            j = j + 1;
        }
        assert(threads@.subrange(0, threads@.len() as int) =~= threads@);
        let active = match active_thread_id {
            Some(id) => if conversations.contains(id.as_str()) {
                Some(id)
            } else {
                None
            },
            None => None,
        };
        proof {
            lemma_loaded_conversations_at_rest(rs, threads@);
        }
        ConversationManager { conversations, active_conversation_id: active, compression }
    }

    /// Creates an idle conversation with an empty history under
    /// `conversation_id` and makes it the active one.
    pub fn create_thread_with_id(
        &mut self,
        input: CreateConversationThreadInput,
        conversation_id: String,
        now_ms: u64,
    ) -> (r: ConversationThreadSummary)
        requires
            old(self).wf(),
        ensures
            final(self).wf(),
            r.conversation_id@ == conversation_id@,
            final(self).conversations() == old(self).conversations().insert(
                conversation_id@,
                fresh_state(conversation_id@, input.title@, input.target_kind, input.target_id@, now_ms),
            ),
            final(self).active() == Some(conversation_id@),
            summarizes(final(self).conversations()[conversation_id@], true, r),
    {
        let state = ConversationState {
            conversation_id: conversation_id.clone(),
            title: input.title,
            target_kind: input.target_kind,
            target_id: input.target_id,
            history: Vec::new(),
            pending_prompt: None,
            status: ThreadStatus::Idle,
            updated_at_ms: now_ms,
            active_turn_id: None,
        };
        assert(message_views(state.history@) =~= Seq::<StoredMessageView>::empty());
        let summary = ConversationThreadSummary::from_record(thread_record(&state), true);
        self.conversations.save(state);
        self.active_conversation_id = Some(conversation_id);
        summary
    }

    /// Creates an idle conversation with an empty history under a fresh id
    /// and makes it the active one (see `create_thread_with_id`). Where the
    /// system's random source fails, no id can be drawn: that is refused and
    /// changes nothing.
    pub fn create_thread(
        &mut self,
        input: CreateConversationThreadInput,
        now_ms: u64,
    ) -> (r: Result<ConversationThreadSummary, TurnError>)
        requires
            old(self).wf(),
        ensures
            final(self).wf(),
            r is Err ==> is_random_failure(r) && final(self).conversations() == old(self).conversations()
                && final(self).active() == old(self).active(),
            r matches Ok(summary) ==> {
                &&& final(self).conversations() == old(self).conversations().insert(
                    summary.conversation_id@,
                    fresh_state(
                        summary.conversation_id@,
                        input.title@,
                        input.target_kind,
                        input.target_id@,
                        now_ms,
                    ),
                )
                &&& final(self).active() == Some(summary.conversation_id@)
                &&& summarizes(final(self).conversations()[summary.conversation_id@], true, summary)
                &&& is_generated_id(summary.conversation_id@)
            },
    {
        match new_uuid_string() {
            Some(id) => Ok(self.create_thread_with_id(input, id, now_ms)),
            None => Err(random_unavailable()),
        }
    }

    /// Every conversation as a thread summary, most recently updated first,
    /// ties by id; exactly the active conversation is marked active.
    pub fn list_threads(&self) -> (r: Vec<ConversationThreadSummary>)
        requires
            self.wf(),
        ensures
            forall|i: int, j: int|
                0 <= i < j < r@.len() ==> summary_listed_before(#[trigger] r@[i], #[trigger] r@[j]),
            forall|i: int|
                0 <= i < r@.len() ==> self.conversations().contains_key(#[trigger] r@[i].conversation_id@)
                    && summarizes(
                    self.conversations()[r@[i].conversation_id@],
                    self.active() == Some(r@[i].conversation_id@),
                    r@[i],
                ),
            forall|k: Seq<char>|
                #[trigger] self.conversations().contains_key(k) ==> exists|i: int|
                    0 <= i < r@.len() && r@[i].conversation_id@ == k,
    {
        let states = self.conversations.list();
        let ghost sv = views(states@);
        let mut out: Vec<ConversationThreadSummary> = Vec::new();
        let mut i: usize = 0;
        while i < states.len()
            invariant
                i <= states@.len(),
                sv == views(states@),
                is_listed::<ConversationState>(sv),
                self.wf(),
                forall|m: int|
                    0 <= m < states@.len() ==> self.conversations().contains_key(
                        #[trigger] states@[m]@.conversation_id,
                    ) && self.conversations()[states@[m]@.conversation_id] == states@[m]@,
                out@.len() == i,
                forall|m: int|
                    0 <= m < i ==> summarizes(states@[m]@, self.active() == Some(
                        states@[m]@.conversation_id,
                    ), #[trigger] out@[m]),
            decreases states@.len() - i,
        {
            let st = &states[i];
            let is_active = match &self.active_conversation_id {
                Some(a) => crate::text::str_eq(a.as_str(), st.conversation_id.as_str()),
                None => false,
            };
            let summary = ConversationThreadSummary::from_record(thread_record(st), is_active);
            out.push(summary);
            i = i + 1;
        }
        proof {
            assert forall|a: int, b: int|
                0 <= a < b < out@.len() implies summary_listed_before(
                #[trigger] out@[a],
                #[trigger] out@[b],
            ) by {
                assert(sv[a] == states@[a]@);
                assert(sv[b] == states@[b]@);
                assert(crate::catalog::listed_before::<ConversationState>(sv[a], sv[b]));
            }
            assert forall|m: int|
                0 <= m < out@.len() implies self.conversations().contains_key(
                #[trigger] out@[m].conversation_id@,
            ) && summarizes(
                self.conversations()[out@[m].conversation_id@],
                self.active() == Some(out@[m].conversation_id@),
                out@[m],
            ) by {
                assert(states@[m]@.conversation_id == out@[m].conversation_id@);
            }
            assert forall|k: Seq<char>|
                #[trigger] self.conversations().contains_key(k) implies exists|m: int|
                    0 <= m < out@.len() && out@[m].conversation_id@ == k by {
                let m = choose|m: int|
                    0 <= m < states@.len() && ConversationState::key_of(states@[m]@) == k;
                assert(out@[m].conversation_id@ == k);
            }
        }
        out
    }

    /// Makes an existing conversation the active one; an unknown id is
    /// refused and changes nothing.
    pub fn switch_thread(&mut self, conversation_id: String) -> (r: Result<
        ConversationThreadSummary,
        TurnError,
    >)
        requires
            old(self).wf(),
        ensures
            final(self).wf(),
            final(self).conversations() == old(self).conversations(),
            !old(self).conversations().contains_key(conversation_id@) ==> {
                &&& r matches Err(TurnError::Runtime(m)) && m@ == not_found_message(
                    conversation_id@,
                )
                &&& final(self).active() == old(self).active()
            },
            old(self).conversations().contains_key(conversation_id@) ==> {
                &&& r matches Ok(s) && summarizes(
                    old(self).conversations()[conversation_id@],
                    true,
                    s,
                )
                &&& final(self).active() == Some(conversation_id@)
            },
    {
        match self.conversations.load(conversation_id.as_str()) {
            None => Err(not_found(conversation_id.as_str())),
            Some(state) => {
                let summary = ConversationThreadSummary::from_record(thread_record(&state), true);
                self.active_conversation_id = Some(conversation_id);
                Ok(summary)
            },
        }
    }
}

impl<P: ConversationCompressionPolicy> ConversationManager<P> {
    /// A checkpoint of a conversation that runs no turn, with id
    /// `checkpoint_id`: a copy of its history and target under the given
    /// title, or its own title.
    pub fn create_checkpoint_with_id(
        &self,
        input: CreateConversationCheckpointInput,
        checkpoint_id: String,
        now_ms: u64,
    ) -> (r: Result<ConversationCheckpointRecord, TurnError>)
        requires
            self.wf(),
        ensures
            !self.conversations().contains_key(input.conversation_id@) ==> (r matches Err(
                TurnError::Runtime(m),
            ) && m@ == not_found_message(input.conversation_id@)),
            self.conversations().contains_key(input.conversation_id@)
                && self.conversations()[input.conversation_id@].active_turn_id is Some ==> (r matches Err(
                TurnError::Runtime(m),
            ) && m@ == active_turn_checkpoint_message()),
            self.conversations().contains_key(input.conversation_id@)
                && self.conversations()[input.conversation_id@].active_turn_id is None ==> (
            r matches Ok(c) && is_checkpoint_of(
                c@,
                self.conversations()[input.conversation_id@],
                opt_view(input.title),
                checkpoint_id@,
                now_ms,
            ) && c.checkpoint_id == checkpoint_id),
    {
        let state = match self.conversations.load(input.conversation_id.as_str()) {
            None => {
                return Err(not_found(input.conversation_id.as_str()));
            },
            Some(state) => state,
        };
        if state.active_turn_id.is_some() {
            return Err(TurnError::Runtime(owned("cannot checkpoint a conversation with an active turn")));
        }
        let title = match input.title {
            Some(t) => t,
            None => state.title,
        };
        Ok(ConversationCheckpointRecord {
            checkpoint_id,
            source_conversation_id: input.conversation_id,
            title,
            target_kind: state.target_kind,
            target_id: state.target_id,
            created_at_ms: now_ms,
            history: state.history,
        })
    }

    /// A checkpoint of a conversation that runs no turn, under a fresh id
    /// (see `create_checkpoint_with_id`); where the system's random source
    /// fails, no id can be drawn and that is refused once the checks pass.
    pub fn create_checkpoint(
        &self,
        input: CreateConversationCheckpointInput,
        now_ms: u64,
    ) -> (r: Result<ConversationCheckpointRecord, TurnError>)
        requires
            self.wf(),
        ensures
            !self.conversations().contains_key(input.conversation_id@) ==> (r matches Err(
                TurnError::Runtime(m),
            ) && m@ == not_found_message(input.conversation_id@)),
            self.conversations().contains_key(input.conversation_id@)
                && self.conversations()[input.conversation_id@].active_turn_id is Some ==> (r matches Err(
                TurnError::Runtime(m),
            ) && m@ == active_turn_checkpoint_message()),
            self.conversations().contains_key(input.conversation_id@)
                && self.conversations()[input.conversation_id@].active_turn_id is None ==> (
            is_random_failure(r) || (r matches Ok(c) && is_checkpoint_of(
                c@,
                self.conversations()[input.conversation_id@],
                opt_view(input.title),
                c.checkpoint_id@,
                now_ms,
            ) && is_generated_id(c.checkpoint_id@))),
    {
        match new_uuid_string() {
            Some(id) => self.create_checkpoint_with_id(input, id, now_ms),
            None => match self.create_checkpoint_with_id(input, String::new(), now_ms) {
                Ok(_) => Err(random_unavailable()),
                Err(e) => Err(e),
            },
        }
    }

    /// Restores a checkpoint into a new idle conversation with id
    /// `conversation_id`, which becomes the active one; the record to store
    /// for it is handed back beside its summary. A missing checkpoint is
    /// refused and changes nothing.
    pub fn restore_checkpoint_with_id(
        &mut self,
        checkpoint: Option<ConversationCheckpointRecord>,
        input: RestoreConversationCheckpointInput,
        conversation_id: String,
        now_ms: u64,
    ) -> (r: Result<(ConversationThreadSummary, ConversationRecord), TurnError>)
        requires
            old(self).wf(),
        ensures
            final(self).wf(),
            checkpoint is None ==> {
                &&& r matches Err(TurnError::Runtime(m)) && m@ == checkpoint_not_found_message(
                    input.checkpoint_id@,
                )
                &&& final(self).conversations() == old(self).conversations()
                &&& final(self).active() == old(self).active()
            },
            checkpoint matches Some(c) ==> (r matches Ok((summary, record)) && {
                let id = conversation_id@;
                let s = restored_state(c@, opt_view(input.title), id, now_ms);
                &&& summary.conversation_id@ == conversation_id@
                &&& final(self).conversations() == old(self).conversations().insert(id, s)
                &&& final(self).active() == Some(id)
                &&& summarizes(s, true, summary)
                &&& is_stored_record_of(s, record@)
            }),
    {
        let checkpoint = match checkpoint {
            None => {
                let mut m = String::new();
                push_str(&mut m, "checkpoint not found: ");
                push_str(&mut m, input.checkpoint_id.as_str());
                return Err(TurnError::Runtime(m));
            },
            Some(c) => c,
        };
        let title = match input.title {
            Some(t) => t,
            None => {
                let mut t = checkpoint.title;
                push_str(&mut t, " (restored)");
                t
            },
        };
        let record = ConversationRecord {
            conversation_id: conversation_id.clone(),
            target_kind: checkpoint.target_kind,
            target_id: checkpoint.target_id.clone(),
            history: clone_history(&checkpoint.history),
            updated_at_ms: now_ms,
        };
        let state = ConversationState {
            conversation_id: conversation_id.clone(),
            title,
            target_kind: checkpoint.target_kind,
            target_id: checkpoint.target_id,
            history: checkpoint.history,
            pending_prompt: None,
            status: ThreadStatus::Idle,
            updated_at_ms: now_ms,
            active_turn_id: None,
        };
        let summary = ConversationThreadSummary::from_record(thread_record(&state), true);
        self.conversations.save(state);
        self.active_conversation_id = Some(conversation_id);
        Ok((summary, record))
    }

    /// Restores a checkpoint into a new idle conversation under a fresh id
    /// (see `restore_checkpoint_with_id`). A missing checkpoint is refused;
    /// where the system's random source fails, no id can be drawn and that is
    /// refused; neither changes anything.
    pub fn restore_checkpoint(
        &mut self,
        checkpoint: Option<ConversationCheckpointRecord>,
        input: RestoreConversationCheckpointInput,
        now_ms: u64,
    ) -> (r: Result<(ConversationThreadSummary, ConversationRecord), TurnError>)
        requires
            old(self).wf(),
        ensures
            final(self).wf(),
            checkpoint is None ==> {
                &&& r matches Err(TurnError::Runtime(m)) && m@ == checkpoint_not_found_message(
                    input.checkpoint_id@,
                )
                &&& final(self).conversations() == old(self).conversations()
                &&& final(self).active() == old(self).active()
            },
            checkpoint is Some && r is Err ==> {
                &&& is_random_failure(r)
                &&& final(self).conversations() == old(self).conversations()
                &&& final(self).active() == old(self).active()
            },
            checkpoint matches Some(c) ==> (r matches Ok((summary, record)) ==> {
                let id = summary.conversation_id@;
                let s = restored_state(c@, opt_view(input.title), id, now_ms);
                &&& final(self).conversations() == old(self).conversations().insert(id, s)
                &&& final(self).active() == Some(id)
                &&& summarizes(s, true, summary)
                &&& is_stored_record_of(s, record@)
                &&& is_generated_id(id)
            }),
    {
        if checkpoint.is_none() {
            return self.restore_checkpoint_with_id(checkpoint, input, String::new(), now_ms);
        }
        match new_uuid_string() {
            Some(id) => self.restore_checkpoint_with_id(checkpoint, input, id, now_ms),
            None => Err(random_unavailable()),
        }
    }
}

/// A started turn and the conversation it runs in.
#[derive(Debug, Clone, PartialEq, Eq)]
pub struct ConversationTurnStarted {
    pub conversation_id: String,
    pub turn_id: String,
}

/// A conversation as it stands.
#[derive(Debug, PartialEq, Eq)]
pub struct ConversationSnapshot {
    pub conversation_id: String,
    pub title: String,
    pub target_kind: TurnTargetKind,
    pub target_id: String,
    pub history: Vec<StoredConversationMessage>,
    pub status: ThreadStatus,
    pub active_turn_id: Option<String>,
}

/// How a turn ended.
#[derive(Debug, PartialEq, Eq)]
pub enum FinishedTurn {
    /// The turn completed; `transcript` is the conversation's history after it.
    Completed { transcript: Vec<StoredConversationMessage> },
    /// The turn was cancelled.
    Cancelled,
    /// The turn failed, or its task ended without an outcome.
    Failed,
}

/// How a turn ended, as content.
pub enum FinishedTurnView {
    Completed { transcript: Seq<StoredMessageView> },
    Cancelled,
    Failed,
}

impl View for FinishedTurn {
    type V = FinishedTurnView;

    open spec fn view(&self) -> FinishedTurnView {
        match self {
            FinishedTurn::Completed { transcript } => FinishedTurnView::Completed {
                transcript: message_views(transcript@),
            },
            FinishedTurn::Cancelled => FinishedTurnView::Cancelled,
            FinishedTurn::Failed => FinishedTurnView::Failed,
        }
    }
}

/// Conversation `s` once turn `turn_id` runs in it from `now_ms`, with
/// `prompt` as its pending prompt where one is given.
pub open spec fn with_turn(
    s: ConversationStateView,
    turn_id: Seq<char>,
    prompt: Option<Seq<char>>,
    now_ms: u64,
) -> ConversationStateView {
    ConversationStateView {
        conversation_id: s.conversation_id,
        title: s.title,
        target_kind: s.target_kind,
        target_id: s.target_id,
        history: s.history,
        pending_prompt: if prompt is Some { prompt } else { s.pending_prompt },
        status: ThreadStatus::Running,
        updated_at_ms: now_ms,
        active_turn_id: Some(turn_id),
    }
}

/// Conversation `s` once cancelled: idle, with no turn and no pending prompt.
pub open spec fn cancelled(s: ConversationStateView) -> ConversationStateView {
    ConversationStateView {
        conversation_id: s.conversation_id,
        title: s.title,
        target_kind: s.target_kind,
        target_id: s.target_id,
        history: s.history,
        pending_prompt: None,
        status: ThreadStatus::Idle,
        updated_at_ms: s.updated_at_ms,
        active_turn_id: None,
    }
}

/// Conversation `s` once turn `turn_id` ended with `outcome` at `now_ms`: the
/// turn is no longer current if it was; a completed turn replaces the history
/// and leaves the conversation idle, a cancelled one leaves it idle, and a
/// failed one leaves it restartable with its prompt kept.
pub open spec fn after_outcome(
    s: ConversationStateView,
    turn_id: Seq<char>,
    outcome: FinishedTurnView,
    now_ms: u64,
) -> ConversationStateView {
    let active = if s.active_turn_id == Some(turn_id) { None } else { s.active_turn_id };
    match outcome {
        FinishedTurnView::Completed { transcript } => ConversationStateView {
            conversation_id: s.conversation_id,
            title: s.title,
            target_kind: s.target_kind,
            target_id: s.target_id,
            history: transcript,
            pending_prompt: None,
            status: ThreadStatus::Idle,
            updated_at_ms: now_ms,
            active_turn_id: active,
        },
        FinishedTurnView::Cancelled => ConversationStateView {
            conversation_id: s.conversation_id,
            title: s.title,
            target_kind: s.target_kind,
            target_id: s.target_id,
            history: s.history,
            pending_prompt: None,
            status: ThreadStatus::Idle,
            updated_at_ms: now_ms,
            active_turn_id: active,
        },
        FinishedTurnView::Failed => ConversationStateView {
            conversation_id: s.conversation_id,
            title: s.title,
            target_kind: s.target_kind,
            target_id: s.target_id,
            history: s.history,
            pending_prompt: s.pending_prompt,
            status: ThreadStatus::Restartable,
            updated_at_ms: now_ms,
            active_turn_id: active,
        },
    }
}

/// Fresh ids for a new conversation and its first turn; refused where the
/// system's random source fails.
pub fn allocate_conversation_turn() -> (r: Result<ConversationTurnStarted, TurnError>)
    ensures
        r is Err ==> is_random_failure(r),
        r matches Ok(t) ==> is_generated_id(t.conversation_id@) && is_generated_id(t.turn_id@),
{
    let conversation_id = match new_uuid_string() {
        Some(id) => id,
        None => {
            return Err(random_unavailable());
        },
    };
    let turn_id = match new_uuid_string() {
        Some(id) => id,
        None => {
            return Err(random_unavailable());
        },
    };
    Ok(ConversationTurnStarted { conversation_id, turn_id })
}

/// The message of a refusal to start a second turn.
pub open spec fn active_turn_message() -> Seq<char> {
    "conversation already has an active turn"@
}

/// The message of a refusal to restart a conversation that is not
/// restartable.
pub open spec fn not_restartable_message() -> Seq<char> {
    "conversation is not restartable"@
}

/// The message of a refusal to restart a conversation without its prompt.
pub open spec fn missing_prompt_message() -> Seq<char> {
    "restartable conversation is missing the interrupted prompt"@
}

impl<P: ConversationCompressionPolicy> ConversationManager<P> {
    /// Continuing a conversation, up to running the turn: checks that the
    /// conversation exists and runs no turn, and hands out the turn id
    /// `turn_id` and the history to run the turn on. Once the turn runs,
    /// `begin_turn` records it.
    pub fn continue_conversation_with_turn_id(
        &self,
        input: &ContinueConversationInput,
        turn_id: String,
    ) -> (r: Result<
        (String, Vec<StoredConversationMessage>),
        TurnError,
    >)
        requires
            self.wf(),
        ensures
            !self.conversations().contains_key(input.conversation_id@) ==> (r matches Err(
                TurnError::Runtime(m),
            ) && m@ == not_found_message(input.conversation_id@)),
            self.conversations().contains_key(input.conversation_id@)
                && self.conversations()[input.conversation_id@].active_turn_id is Some ==> (r matches Err(
                TurnError::Runtime(m),
            ) && m@ == active_turn_message()),
            self.conversations().contains_key(input.conversation_id@)
                && self.conversations()[input.conversation_id@].active_turn_id is None ==> (
            r matches Ok((t, h)) && message_views(h@) == self.conversations()[input.conversation_id@].history
                && t == turn_id),
    {
        let state = match self.conversations.load(input.conversation_id.as_str()) {
            None => {
                return Err(not_found(input.conversation_id.as_str()));
            },
            Some(state) => state,
        };
        if state.active_turn_id.is_some() {
            return Err(TurnError::Runtime(owned("conversation already has an active turn")));
        }
        Ok((turn_id, state.history))
    }

    /// Continuing a conversation, up to running the turn, under a fresh turn
    /// id (see `continue_conversation_with_turn_id`); where the system's
    /// random source fails, no id can be drawn and that is refused once the
    /// checks pass.
    pub fn continue_conversation(&self, input: &ContinueConversationInput) -> (r: Result<
        (String, Vec<StoredConversationMessage>),
        TurnError,
    >)
        requires
            self.wf(),
        ensures
            !self.conversations().contains_key(input.conversation_id@) ==> (r matches Err(
                TurnError::Runtime(m),
            ) && m@ == not_found_message(input.conversation_id@)),
            self.conversations().contains_key(input.conversation_id@)
                && self.conversations()[input.conversation_id@].active_turn_id is Some ==> (r matches Err(
                TurnError::Runtime(m),
            ) && m@ == active_turn_message()),
            self.conversations().contains_key(input.conversation_id@)
                && self.conversations()[input.conversation_id@].active_turn_id is None ==> (
            is_random_failure(r) || (r matches Ok((turn_id, h)) && message_views(h@)
                == self.conversations()[input.conversation_id@].history && is_generated_id(turn_id@))),
    {
        match new_uuid_string() {
            Some(turn_id) => self.continue_conversation_with_turn_id(input, turn_id),
            None => match self.continue_conversation_with_turn_id(input, String::new()) {
                Ok(_) => Err(random_unavailable()),
                Err(e) => Err(e),
            },
        }
    }

    /// Restarting an interrupted turn, up to running it: checks that the
    /// conversation exists, runs no turn, is restartable and still holds its
    /// prompt, and hands out the turn id `turn_id`, the history and the
    /// prompt to run the turn with. Once the turn runs, `begin_turn` records it.
    pub fn restart_conversation_with_turn_id(
        &self,
        input: &RestartConversationInput,
        turn_id: String,
    ) -> (r: Result<
        (String, Vec<StoredConversationMessage>, String),
        TurnError,
    >)
        requires
            self.wf(),
        ensures
            !self.conversations().contains_key(input.conversation_id@) ==> (r matches Err(
                TurnError::Runtime(m),
            ) && m@ == not_found_message(input.conversation_id@)),
            self.conversations().contains_key(input.conversation_id@) ==> {
                let s = self.conversations()[input.conversation_id@];
                &&& s.active_turn_id is Some ==> (r matches Err(TurnError::Runtime(m)) && m@
                    == active_turn_message())
                &&& s.active_turn_id is None && s.status != ThreadStatus::Restartable ==> (r matches Err(
                    TurnError::Runtime(m),
                ) && m@ == not_restartable_message())
                &&& s.active_turn_id is None && s.status == ThreadStatus::Restartable
                    && s.pending_prompt is None ==> (r matches Err(TurnError::Runtime(m)) && m@
                    == missing_prompt_message())
                &&& s.active_turn_id is None && s.status == ThreadStatus::Restartable
                    && s.pending_prompt is Some ==> (r matches Ok((t, h, p)) && message_views(h@) == s.history
                    && Some(p@) == s.pending_prompt && t == turn_id)
            },
    {
        let state = match self.conversations.load(input.conversation_id.as_str()) {
            None => {
                return Err(not_found(input.conversation_id.as_str()));
            },
            Some(state) => state,
        };
        if state.active_turn_id.is_some() {
            return Err(TurnError::Runtime(owned("conversation already has an active turn")));
        }
        if state.status != ThreadStatus::Restartable {
            return Err(TurnError::Runtime(owned("conversation is not restartable")));
        }
        match state.pending_prompt {
            None => Err(
                TurnError::Runtime(owned("restartable conversation is missing the interrupted prompt")),
            ),
            Some(prompt) => Ok((turn_id, state.history, prompt)),
        }
    }

    /// Restarting an interrupted turn, up to running it, under a fresh turn
    /// id (see `restart_conversation_with_turn_id`); where the system's
    /// random source fails, no id can be drawn and that is refused once the
    /// checks pass.
    pub fn restart_conversation(&self, input: &RestartConversationInput) -> (r: Result<
        (String, Vec<StoredConversationMessage>, String),
        TurnError,
    >)
        requires
            self.wf(),
        ensures
            !self.conversations().contains_key(input.conversation_id@) ==> (r matches Err(
                TurnError::Runtime(m),
            ) && m@ == not_found_message(input.conversation_id@)),
            self.conversations().contains_key(input.conversation_id@) ==> {
                let s = self.conversations()[input.conversation_id@];
                &&& s.active_turn_id is Some ==> (r matches Err(TurnError::Runtime(m)) && m@
                    == active_turn_message())
                &&& s.active_turn_id is None && s.status != ThreadStatus::Restartable ==> (r matches Err(
                    TurnError::Runtime(m),
                ) && m@ == not_restartable_message())
                &&& s.active_turn_id is None && s.status == ThreadStatus::Restartable
                    && s.pending_prompt is None ==> (r matches Err(TurnError::Runtime(m)) && m@
                    == missing_prompt_message())
                &&& s.active_turn_id is None && s.status == ThreadStatus::Restartable
                    && s.pending_prompt is Some ==> (is_random_failure(r) || (r matches Ok(
                    (turn_id, h, p),
                ) && message_views(h@) == s.history && Some(p@) == s.pending_prompt
                    && is_generated_id(turn_id@)))
            },
    {
        match new_uuid_string() {
            Some(turn_id) => self.restart_conversation_with_turn_id(input, turn_id),
            None => match self.restart_conversation_with_turn_id(input, String::new()) {
                Ok(_) => Err(random_unavailable()),
                Err(e) => Err(e),
            },
        }
    }

    /// Records that turn `turn_id` now runs in a conversation, with `prompt`
    /// as its pending prompt where one is given, and makes the conversation
    /// the active one. An unknown conversation is left alone.
    pub fn begin_turn(
        &mut self,
        conversation_id: &str,
        turn_id: String,
        prompt: Option<String>,
        now_ms: u64,
    ) -> (r: ConversationTurnStarted)
        requires
            old(self).wf(),
        ensures
            final(self).wf(),
            r.conversation_id@ == conversation_id@,
            r.turn_id == turn_id,
            old(self).conversations().contains_key(conversation_id@) ==> {
                &&& final(self).conversations() == old(self).conversations().insert(
                    conversation_id@,
                    with_turn(
                        old(self).conversations()[conversation_id@],
                        turn_id@,
                        opt_view(prompt),
                        now_ms,
                    ),
                )
                &&& final(self).active() == Some(conversation_id@)
            },
            !old(self).conversations().contains_key(conversation_id@) ==> {
                &&& final(self).conversations() == old(self).conversations()
                &&& final(self).active() == old(self).active()
            },
    {
        if let Some(found) = self.conversations.load(conversation_id) {
            let mut state = found;
            state.updated_at_ms = now_ms;
            if prompt.is_some() {
                state.pending_prompt = prompt;
            }
            state.status = ThreadStatus::Running;
            state.active_turn_id = Some(turn_id.clone());
            self.conversations.save(state);
            self.active_conversation_id = Some(owned(conversation_id));
        }
        ConversationTurnStarted { conversation_id: owned(conversation_id), turn_id }
    }

    /// Records a new conversation whose first turn `turn_id` runs from
    /// `now_ms`, titled after its prompt, and makes it the active one.
    pub fn start_conversation(
        &mut self,
        input: StartConversationInput,
        conversation_id: String,
        turn_id: String,
        now_ms: u64,
    ) -> (r: ConversationTurnStarted)
        requires
            old(self).wf(),
        ensures
            final(self).wf(),
            r.conversation_id == conversation_id,
            r.turn_id == turn_id,
            final(self).active() == Some(conversation_id@),
            final(self).conversations() == old(self).conversations().insert(
                conversation_id@,
                with_turn(
                    fresh_state(
                        conversation_id@,
                        conversation_title_of(input.prompt@),
                        input.target_kind,
                        input.target_id@,
                        now_ms,
                    ),
                    turn_id@,
                    Some(input.prompt@),
                    now_ms,
                ),
            ),
    {
        let title = conversation_title(input.prompt.as_str());
        let state = ConversationState {
            conversation_id: conversation_id.clone(),
            title,
            target_kind: input.target_kind,
            target_id: input.target_id,
            history: Vec::new(),
            pending_prompt: Some(input.prompt),
            status: ThreadStatus::Running,
            updated_at_ms: now_ms,
            active_turn_id: Some(turn_id.clone()),
        };
        assert(message_views(state.history@) =~= Seq::<StoredMessageView>::empty());
        self.conversations.save(state);
        self.active_conversation_id = Some(conversation_id.clone());
        ConversationTurnStarted { conversation_id, turn_id }
    }

    /// Cancels what runs in a conversation: it becomes idle with no turn and
    /// no pending prompt. An unknown conversation is refused.
    pub fn cancel_conversation(&mut self, conversation_id: &str) -> (r: Result<(), TurnError>)
        requires
            old(self).wf(),
        ensures
            final(self).wf(),
            final(self).active() == old(self).active(),
            !old(self).conversations().contains_key(conversation_id@) ==> {
                &&& r matches Err(TurnError::Runtime(m)) && m@ == not_found_message(conversation_id@)
                &&& final(self).conversations() == old(self).conversations()
            },
            old(self).conversations().contains_key(conversation_id@) ==> {
                &&& r is Ok
                &&& final(self).conversations() == old(self).conversations().insert(
                    conversation_id@,
                    cancelled(old(self).conversations()[conversation_id@]),
                )
            },
    {
        match self.conversations.load(conversation_id) {
            None => Err(not_found(conversation_id)),
            Some(found) => {
                let mut state = found;
                state.pending_prompt = None;
                state.status = ThreadStatus::Idle;
                state.active_turn_id = None;
                self.conversations.save(state);
                Ok(())
            },
        }
    }

    /// Applies the end of turn `turn_id` to its conversation; for a completed
    /// turn the conversation's record is passed through the compression policy
    /// and what the policy answers is handed back: the record to store, or the
    /// policy's error. An unknown conversation is left alone.
    pub fn apply_outcome(
        &mut self,
        conversation_id: &str,
        turn_id: &str,
        outcome: FinishedTurn,
        now_ms: u64,
    ) -> (r: Option<Result<ConversationRecord, TurnError>>)
        requires
            old(self).wf(),
        ensures
            final(self).wf(),
            final(self).active() == old(self).active(),
            final(self).compression() == old(self).compression(),
            !old(self).conversations().contains_key(conversation_id@) ==> {
                &&& r is None
                &&& final(self).conversations() == old(self).conversations()
            },
            old(self).conversations().contains_key(conversation_id@) ==> {
                let s = after_outcome(
                    old(self).conversations()[conversation_id@],
                    turn_id@,
                    outcome@,
                    now_ms,
                );
                &&& final(self).conversations() == old(self).conversations().insert(conversation_id@, s)
                &&& (outcome is Completed <==> r is Some)
                &&& r matches Some(stored) ==> exists|rec: ConversationRecordView|
                    #[trigger] is_stored_record_of(s, rec) && old(self).compression().compresses(
                        rec,
                        compressed_view(stored),
                    )
            },
    {
        let found = match self.conversations.load(conversation_id) {
            None => {
                return None;
            },
            Some(found) => found,
        };
        let mut state = found;
        let current = match &state.active_turn_id {
            Some(t) => crate::text::str_eq(t.as_str(), turn_id),
            None => false,
        };
        if current {
            state.active_turn_id = None;
        }
        let record = match outcome {
            FinishedTurn::Completed { transcript } => {
                state.history = transcript;
                state.pending_prompt = None;
                state.updated_at_ms = now_ms;
                state.status = ThreadStatus::Idle;
                let record = ConversationRecord {
                    conversation_id: state.conversation_id.clone(),
                    target_kind: state.target_kind,
                    target_id: state.target_id.clone(),
                    history: clone_history(&state.history),
                    updated_at_ms: state.updated_at_ms,
                };
                let ghost rec = record@;
                let stored = self.compression.compress(record);
                assert(is_stored_record_of(state@, rec));
                Some(stored)
            },
            FinishedTurn::Cancelled => {
                state.pending_prompt = None;
                state.updated_at_ms = now_ms;
                state.status = ThreadStatus::Idle;
                None
            },
            FinishedTurn::Failed => {
                state.updated_at_ms = now_ms;
                state.status = ThreadStatus::Restartable;
                None
            },
        };
        self.conversations.save(state);
        record
    }

    /// The persisted thread of a conversation, if it exists.
    pub fn thread_record_of(&self, conversation_id: &str) -> (r: Option<ConversationThreadRecord>)
        requires
            self.wf(),
        ensures
            r is Some <==> self.conversations().contains_key(conversation_id@),
            r matches Some(t) ==> is_thread_record_of(self.conversations()[conversation_id@], t),
    {
        match self.conversations.load(conversation_id) {
            None => None,
            Some(state) => Some(thread_record(&state)),
        }
    }

    /// A conversation as it stands, if it exists.
    pub fn snapshot(&self, conversation_id: &str) -> (r: Option<ConversationSnapshot>)
        requires
            self.wf(),
        ensures
            r is Some <==> self.conversations().contains_key(conversation_id@),
            r matches Some(snap) ==> {
                let s = self.conversations()[conversation_id@];
                &&& snap.conversation_id@ == conversation_id@
                &&& snap.title@ == s.title
                &&& snap.target_kind == s.target_kind
                &&& snap.target_id@ == s.target_id
                &&& message_views(snap.history@) == s.history
                &&& snap.status == s.status
                &&& opt_view(snap.active_turn_id) == s.active_turn_id
            },
    {
        match self.conversations.load(conversation_id) {
            None => None,
            Some(state) => Some(ConversationSnapshot {
                conversation_id: owned(conversation_id),
                title: state.title,
                target_kind: state.target_kind,
                target_id: state.target_id,
                history: state.history,
                status: state.status,
                active_turn_id: state.active_turn_id,
            }),
        }
    }
}

/// The message of a refusal to checkpoint a running conversation.
pub open spec fn active_turn_checkpoint_message() -> Seq<char> {
    "cannot checkpoint a conversation with an active turn"@
}

/// The message of a refusal for an unknown checkpoint.
pub open spec fn checkpoint_not_found_message(checkpoint_id: Seq<char>) -> Seq<char> {
    "checkpoint not found: "@ + checkpoint_id
}

/// Whether `c` is the checkpoint of conversation `s` made with id
/// `checkpoint_id` at `now_ms`, under `title` or the conversation's own.
pub open spec fn is_checkpoint_of(
    c: crate::chat::checkpoints::CheckpointView,
    s: ConversationStateView,
    title: Option<Seq<char>>,
    checkpoint_id: Seq<char>,
    now_ms: u64,
) -> bool {
    &&& c.checkpoint_id@ == checkpoint_id
    &&& c.source_conversation_id@ == s.conversation_id
    &&& c.title@ == (match title {
        Some(t) => t,
        None => s.title,
    })
    &&& c.target_kind == s.target_kind
    &&& c.target_id@ == s.target_id
    &&& c.created_at_ms == now_ms
    &&& c.history == s.history
}

/// The conversation restored from checkpoint `c`: its history and target,
/// under `title` or the checkpoint's title marked as restored.
pub open spec fn restored_state(
    c: crate::chat::checkpoints::CheckpointView,
    title: Option<Seq<char>>,
    conversation_id: Seq<char>,
    now_ms: u64,
) -> ConversationStateView {
    ConversationStateView {
        conversation_id,
        title: match title {
            Some(t) => t,
            None => c.title@ + " (restored)"@,
        },
        target_kind: c.target_kind,
        target_id: c.target_id@,
        history: c.history,
        pending_prompt: None,
        status: ThreadStatus::Idle,
        updated_at_ms: now_ms,
        active_turn_id: None,
    }
}

/// Whether `r` is the stored record of conversation `s`.
pub open spec fn is_stored_record_of(s: ConversationStateView, r: ConversationRecordView) -> bool {
    &&& r.conversation_id@ == s.conversation_id
    &&& r.target_kind == s.target_kind
    &&& r.target_id@ == s.target_id
    &&& r.history == s.history
    &&& r.updated_at_ms == s.updated_at_ms
}

/// A new idle conversation with an empty history.
pub open spec fn fresh_state(
    conversation_id: Seq<char>,
    title: Seq<char>,
    target_kind: TurnTargetKind,
    target_id: Seq<char>,
    now_ms: u64,
) -> ConversationStateView {
    ConversationStateView {
        conversation_id,
        title,
        target_kind,
        target_id,
        history: Seq::empty(),
        pending_prompt: None,
        status: ThreadStatus::Idle,
        updated_at_ms: now_ms,
        active_turn_id: None,
    }
}

/// Whether `r` lists conversation `s` with the given active flag.
pub open spec fn summarizes(s: ConversationStateView, is_active: bool, r: ConversationThreadSummary) -> bool {
    &&& r.conversation_id@ == s.conversation_id
    &&& r.title@ == s.title
    &&& r.target_kind == s.target_kind
    &&& r.target_id@ == s.target_id
    &&& r.updated_at_ms == s.updated_at_ms
    &&& r.status == s.status
    &&& r.is_active == is_active
}

/// Listing order of thread summaries: newer first, equal stamps by id.
pub open spec fn summary_listed_before(a: ConversationThreadSummary, b: ConversationThreadSummary) -> bool {
    a.updated_at_ms > b.updated_at_ms || (a.updated_at_ms == b.updated_at_ms && lex_lt(
        a.conversation_id@,
        b.conversation_id@,
    ))
}

/// The message of a refusal for an unknown conversation.
pub open spec fn not_found_message(conversation_id: Seq<char>) -> Seq<char> {
    "conversation not found: "@ + conversation_id
}

/// The refusal for an unknown conversation.
fn not_found(conversation_id: &str) -> (e: TurnError)
    ensures
        e matches TurnError::Runtime(m) && m@ == not_found_message(conversation_id@),
{
    let mut m = String::new();
    push_str(&mut m, "conversation not found: ");
    push_str(&mut m, conversation_id);
    TurnError::Runtime(m)
}

/// The active conversation, where there is one, is always a conversation
/// the manager holds.
pub proof fn lemma_active_conversation_exists<P: ConversationCompressionPolicy>(
    m: &ConversationManager<P>,
)
    requires
        m.wf(),
    ensures
        m.active() matches Some(k) ==> m.conversations().contains_key(k),
{
}

/// Restoring a checkpoint gives back the checkpointed conversation's history
/// and target, in an idle conversation that runs no turn.
pub proof fn lemma_restore_gives_back_checkpointed_history(
    c: crate::chat::checkpoints::CheckpointView,
    s: ConversationStateView,
    title: Option<Seq<char>>,
    checkpoint_id: Seq<char>,
    created_ms: u64,
    restore_title: Option<Seq<char>>,
    conversation_id: Seq<char>,
    now_ms: u64,
)
    requires
        is_checkpoint_of(c, s, title, checkpoint_id, created_ms),
    ensures
        restored_state(c, restore_title, conversation_id, now_ms).history == s.history,
        restored_state(c, restore_title, conversation_id, now_ms).target_kind == s.target_kind,
        restored_state(c, restore_title, conversation_id, now_ms).target_id == s.target_id,
        restored_state(c, restore_title, conversation_id, now_ms).status == ThreadStatus::Idle,
        restored_state(c, restore_title, conversation_id, now_ms).active_turn_id is None,
{
}

/// Cancelling a conversation in which a turn was begun leaves it idle, with
/// no turn and no pending prompt, and its history as it was.
pub proof fn lemma_cancel_after_begin_is_idle(
    s: ConversationStateView,
    turn_id: Seq<char>,
    prompt: Option<Seq<char>>,
    now_ms: u64,
)
    ensures
        cancelled(with_turn(s, turn_id, prompt, now_ms)).status == ThreadStatus::Idle,
        cancelled(with_turn(s, turn_id, prompt, now_ms)).active_turn_id is None,
        cancelled(with_turn(s, turn_id, prompt, now_ms)).pending_prompt is None,
        cancelled(with_turn(s, turn_id, prompt, now_ms)).history == s.history,
{
}

/// The end of the current turn makes the conversation turn-free; the end of
/// any other turn leaves the current turn in place.
pub proof fn lemma_outcome_ends_only_current_turn(
    s: ConversationStateView,
    turn_id: Seq<char>,
    outcome: FinishedTurnView,
    now_ms: u64,
)
    ensures
        s.active_turn_id == Some(turn_id) ==> after_outcome(
            s,
            turn_id,
            outcome,
            now_ms,
        ).active_turn_id is None,
        s.active_turn_id != Some(turn_id) ==> after_outcome(s, turn_id, outcome, now_ms).active_turn_id
            == s.active_turn_id,
{
}

/// Beginning a turn makes the conversation run that turn, with the given
/// prompt pending where one is given (else the pending prompt it had); its
/// history, identity and target are kept.
pub proof fn lemma_begun_turn_runs(
    s: ConversationStateView,
    turn_id: Seq<char>,
    prompt: Option<Seq<char>>,
    now_ms: u64,
)
    ensures
        with_turn(s, turn_id, prompt, now_ms).status == ThreadStatus::Running,
        with_turn(s, turn_id, prompt, now_ms).active_turn_id == Some(turn_id),
        prompt is Some ==> with_turn(s, turn_id, prompt, now_ms).pending_prompt == prompt,
        prompt is None ==> with_turn(s, turn_id, prompt, now_ms).pending_prompt == s.pending_prompt,
        with_turn(s, turn_id, prompt, now_ms).history == s.history,
        with_turn(s, turn_id, prompt, now_ms).conversation_id == s.conversation_id,
        with_turn(s, turn_id, prompt, now_ms).target_id == s.target_id,
        with_turn(s, turn_id, prompt, now_ms).updated_at_ms == now_ms,
{
}

/// Cancelling a conversation leaves it idle, running no turn and holding no
/// prompt, with its history, identity, target and time stamp kept.
pub proof fn lemma_cancelled_conversation_is_idle(s: ConversationStateView)
    ensures
        cancelled(s).status == ThreadStatus::Idle,
        cancelled(s).active_turn_id is None,
        cancelled(s).pending_prompt is None,
        cancelled(s).history == s.history,
        cancelled(s).conversation_id == s.conversation_id,
        cancelled(s).target_id == s.target_id,
        cancelled(s).updated_at_ms == s.updated_at_ms,
{
}

/// A completed turn makes its transcript the conversation's history and
/// leaves the conversation idle with no pending prompt; identity and target
/// are kept and the conversation is stamped with the time of the outcome.
pub proof fn lemma_completed_turn_replaces_history(
    s: ConversationStateView,
    turn_id: Seq<char>,
    transcript: Seq<StoredMessageView>,
    now_ms: u64,
)
    ensures
        after_outcome(s, turn_id, FinishedTurnView::Completed { transcript }, now_ms).history == transcript,
        after_outcome(s, turn_id, FinishedTurnView::Completed { transcript }, now_ms).status
            == ThreadStatus::Idle,
        after_outcome(s, turn_id, FinishedTurnView::Completed { transcript }, now_ms).pending_prompt is None,
        after_outcome(s, turn_id, FinishedTurnView::Completed { transcript }, now_ms).conversation_id
            == s.conversation_id,
        after_outcome(s, turn_id, FinishedTurnView::Completed { transcript }, now_ms).title == s.title,
        after_outcome(s, turn_id, FinishedTurnView::Completed { transcript }, now_ms).target_kind
            == s.target_kind,
        after_outcome(s, turn_id, FinishedTurnView::Completed { transcript }, now_ms).target_id
            == s.target_id,
        after_outcome(s, turn_id, FinishedTurnView::Completed { transcript }, now_ms).updated_at_ms
            == now_ms,
{
}

/// A failed turn leaves its conversation restartable, keeping its history
/// and its pending prompt; identity and target are kept and the conversation
/// is stamped with the time of the outcome.
pub proof fn lemma_failed_turn_keeps_prompt_and_history(
    s: ConversationStateView,
    turn_id: Seq<char>,
    now_ms: u64,
)
    ensures
        after_outcome(s, turn_id, FinishedTurnView::Failed, now_ms).status == ThreadStatus::Restartable,
        after_outcome(s, turn_id, FinishedTurnView::Failed, now_ms).pending_prompt == s.pending_prompt,
        after_outcome(s, turn_id, FinishedTurnView::Failed, now_ms).history == s.history,
        after_outcome(s, turn_id, FinishedTurnView::Failed, now_ms).conversation_id == s.conversation_id,
        after_outcome(s, turn_id, FinishedTurnView::Failed, now_ms).title == s.title,
        after_outcome(s, turn_id, FinishedTurnView::Failed, now_ms).target_kind == s.target_kind,
        after_outcome(s, turn_id, FinishedTurnView::Failed, now_ms).target_id == s.target_id,
        after_outcome(s, turn_id, FinishedTurnView::Failed, now_ms).updated_at_ms == now_ms,
{
}

/// A cancelled turn leaves its conversation idle with no pending prompt,
/// whatever the conversation was doing; its history, identity and target are
/// kept, and it is stamped with the time of the cancellation. Where the
/// cancelled turn was the one running, no turn runs any more.
pub proof fn lemma_cancelled_turn_is_idle(
    s: ConversationStateView,
    turn_id: Seq<char>,
    now_ms: u64,
)
    ensures
        after_outcome(s, turn_id, FinishedTurnView::Cancelled, now_ms).status == ThreadStatus::Idle,
        after_outcome(s, turn_id, FinishedTurnView::Cancelled, now_ms).pending_prompt is None,
        after_outcome(s, turn_id, FinishedTurnView::Cancelled, now_ms).history == s.history,
        after_outcome(s, turn_id, FinishedTurnView::Cancelled, now_ms).conversation_id
            == s.conversation_id,
        after_outcome(s, turn_id, FinishedTurnView::Cancelled, now_ms).title == s.title,
        after_outcome(s, turn_id, FinishedTurnView::Cancelled, now_ms).target_kind == s.target_kind,
        after_outcome(s, turn_id, FinishedTurnView::Cancelled, now_ms).target_id == s.target_id,
        after_outcome(s, turn_id, FinishedTurnView::Cancelled, now_ms).updated_at_ms == now_ms,
        s.active_turn_id == Some(turn_id) ==> after_outcome(
            s,
            turn_id,
            FinishedTurnView::Cancelled,
            now_ms,
        ).active_turn_id is None,
{
}

/// A turn begun with a prompt and then cancelled leaves the conversation
/// idle, running no turn and holding no prompt: unlike a failed turn, it
/// cannot be restarted.
pub proof fn lemma_cancelled_begun_turn_is_not_restartable(
    s: ConversationStateView,
    turn_id: Seq<char>,
    prompt: Seq<char>,
    begun_ms: u64,
    now_ms: u64,
)
    ensures
        after_outcome(
            with_turn(s, turn_id, Some(prompt), begun_ms),
            turn_id,
            FinishedTurnView::Cancelled,
            now_ms,
        ).status == ThreadStatus::Idle,
        after_outcome(
            with_turn(s, turn_id, Some(prompt), begun_ms),
            turn_id,
            FinishedTurnView::Cancelled,
            now_ms,
        ).pending_prompt is None,
        after_outcome(
            with_turn(s, turn_id, Some(prompt), begun_ms),
            turn_id,
            FinishedTurnView::Cancelled,
            now_ms,
        ).active_turn_id is None,
{
}

/// A turn begun with a prompt that then fails leaves the conversation
/// restartable, holding that prompt and no turn: exactly what a restart asks.
pub proof fn lemma_failed_turn_is_restartable(
    s: ConversationStateView,
    turn_id: Seq<char>,
    prompt: Seq<char>,
    begun_ms: u64,
    now_ms: u64,
)
    ensures
        after_outcome(
            with_turn(s, turn_id, Some(prompt), begun_ms),
            turn_id,
            FinishedTurnView::Failed,
            now_ms,
        ).status == ThreadStatus::Restartable,
        after_outcome(
            with_turn(s, turn_id, Some(prompt), begun_ms),
            turn_id,
            FinishedTurnView::Failed,
            now_ms,
        ).pending_prompt == Some(prompt),
        after_outcome(
            with_turn(s, turn_id, Some(prompt), begun_ms),
            turn_id,
            FinishedTurnView::Failed,
            now_ms,
        ).active_turn_id is None,
{
}

/// A completed turn leaves its conversation idle, running no turn, with the
/// turn's transcript as its history.
pub proof fn lemma_completed_turn_stores_transcript(
    s: ConversationStateView,
    turn_id: Seq<char>,
    transcript: Seq<StoredMessageView>,
    now_ms: u64,
)
    requires
        s.active_turn_id == Some(turn_id),
    ensures
        after_outcome(s, turn_id, FinishedTurnView::Completed { transcript }, now_ms).history
            == transcript,
        after_outcome(s, turn_id, FinishedTurnView::Completed { transcript }, now_ms).status
            == ThreadStatus::Idle,
        after_outcome(
            s,
            turn_id,
            FinishedTurnView::Completed { transcript },
            now_ms,
        ).active_turn_id is None,
{
}

} // verus!
