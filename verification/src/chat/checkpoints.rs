//! Conversation checkpoints: frozen copies of a conversation's history from
//! which a new conversation can be restored.
use vstd::prelude::*;

use crate::catalog::{is_listed, views, Catalog, Keyed};
use crate::chat::events::TurnTargetKind;
use crate::chat::model::TurnMessage;
use crate::chat::storage::{
    clone_history, history_restored_is, history_stored_is, restore_history, store_history,
    StoredConversationMessage, StoredMessageView,
};

verus! {

/// A stored checkpoint.
#[derive(Debug, PartialEq, Eq)]
pub struct ConversationCheckpointRecord {
    pub checkpoint_id: String,
    pub source_conversation_id: String,
    pub title: String,
    pub target_kind: TurnTargetKind,
    pub target_id: String,
    pub created_at_ms: u64,
    pub history: Vec<StoredConversationMessage>,
}

/// The content of a checkpoint.
pub struct CheckpointView {
    pub checkpoint_id: String,
    pub source_conversation_id: String,
    pub title: String,
    pub target_kind: TurnTargetKind,
    pub target_id: String,
    pub created_at_ms: u64,
    pub history: Seq<StoredMessageView>,
}

impl View for ConversationCheckpointRecord {
    type V = CheckpointView;

    open spec fn view(&self) -> CheckpointView {
        CheckpointView {
            checkpoint_id: self.checkpoint_id,
            source_conversation_id: self.source_conversation_id,
            title: self.title,
            target_kind: self.target_kind,
            target_id: self.target_id,
            created_at_ms: self.created_at_ms,
            history: crate::chat::storage::views(self.history@),
        }
    }
}

impl Keyed for ConversationCheckpointRecord {
    open spec fn key_of(v: CheckpointView) -> Seq<char> {
        v.checkpoint_id@
    }

    open spec fn stamp_of(v: CheckpointView) -> u64 {
        v.created_at_ms
    }

    fn key(&self) -> (r: &str) {
        self.checkpoint_id.as_str()
    }

    fn stamp(&self) -> (r: u64) {
        self.created_at_ms
    }

    fn duplicate(&self) -> (r: ConversationCheckpointRecord) {
        ConversationCheckpointRecord {
            checkpoint_id: self.checkpoint_id.clone(),
            source_conversation_id: self.source_conversation_id.clone(),
            title: self.title.clone(),
            target_kind: self.target_kind,
            target_id: self.target_id.clone(),
            created_at_ms: self.created_at_ms,
            history: clone_history(&self.history),
        }
    }
}

impl Clone for ConversationCheckpointRecord {
    fn clone(&self) -> (r: ConversationCheckpointRecord)
        ensures
            r@ == self@,
    {
        self.duplicate()
    }
}

/// A checkpoint as listed to the user.
#[derive(Debug, Clone, PartialEq, Eq)]
pub struct ConversationCheckpointSummary {
    pub checkpoint_id: String,
    pub source_conversation_id: String,
    pub title: String,
    pub created_at_ms: u64,
}

impl<'a> From<&'a ConversationCheckpointRecord> for ConversationCheckpointSummary {
    fn from(value: &'a ConversationCheckpointRecord) -> (s: ConversationCheckpointSummary) {
        ConversationCheckpointSummary {
            checkpoint_id: value.checkpoint_id.clone(),
            source_conversation_id: value.source_conversation_id.clone(),
            title: value.title.clone(),
            created_at_ms: value.created_at_ms,
        }
    }
}

impl<'a> vstd::std_specs::convert::FromSpecImpl<&'a ConversationCheckpointRecord> for ConversationCheckpointSummary {
    open spec fn obeys_from_spec() -> bool {
        true
    }

    open spec fn from_spec(v: &'a ConversationCheckpointRecord) -> ConversationCheckpointSummary {
        ConversationCheckpointSummary {
            checkpoint_id: v.checkpoint_id,
            source_conversation_id: v.source_conversation_id,
            title: v.title,
            created_at_ms: v.created_at_ms,
        }
    }
}

/// A request to checkpoint a conversation.
#[derive(Debug, Clone, PartialEq, Eq)]
pub struct CreateConversationCheckpointInput {
    pub conversation_id: String,
    pub title: Option<String>,
}

/// A request to restore a checkpoint into a new conversation.
#[derive(Debug, Clone, PartialEq, Eq)]
pub struct RestoreConversationCheckpointInput {
    pub checkpoint_id: String,
    pub title: Option<String>,
}

/// Checkpoints kept in memory, keyed by checkpoint id.
pub struct InMemoryConversationCheckpointRepository {
    records: Catalog<ConversationCheckpointRecord>,
}

impl InMemoryConversationCheckpointRepository {
    /// The stored checkpoints, keyed by checkpoint id.
    pub closed spec fn contents(&self) -> Map<Seq<char>, CheckpointView> {
        self.records.contents()
    }

    /// An empty repository.
    pub fn new() -> (r: InMemoryConversationCheckpointRepository)
        ensures
            r.contents() == Map::<Seq<char>, CheckpointView>::empty(),
    {
        InMemoryConversationCheckpointRepository { records: Catalog::new() }
    }

    /// Saves a checkpoint, replacing the one with the same id.
    pub fn save(&mut self, record: ConversationCheckpointRecord)
        ensures
            final(self).contents() == old(self).contents().insert(record.checkpoint_id@, record@),
    {
        self.records.save(record);
    }

    /// The checkpoint with an id, if stored.
    pub fn load(&self, checkpoint_id: &str) -> (r: Option<ConversationCheckpointRecord>)
        ensures
            r is Some <==> self.contents().contains_key(checkpoint_id@),
            r matches Some(c) ==> c@ == self.contents()[checkpoint_id@],
    {
        self.records.load(checkpoint_id)
    }

    /// Every checkpoint, newest first, ties by checkpoint id.
    pub fn list(&self) -> (r: Vec<ConversationCheckpointRecord>)
        ensures
            is_listed::<ConversationCheckpointRecord>(views(r@)),
            forall|i: int|
                0 <= i < r@.len() ==> self.contents().contains_key(#[trigger] r@[i]@.checkpoint_id@)
                    && self.contents()[r@[i]@.checkpoint_id@] == r@[i]@,
            forall|k: Seq<char>|
                #[trigger] self.contents().contains_key(k) ==> exists|i: int|
                    0 <= i < r@.len() && r@[i].checkpoint_id@ == k,
    {
        self.records.list()
    }
}

/// Checkpoints backed by a file at `path`; the caller writes `list()` back to
/// the file after each change.
pub struct JsonConversationCheckpointRepository {
    path: String,
    records: InMemoryConversationCheckpointRepository,
}

impl JsonConversationCheckpointRepository {
    /// The path of the checkpoint file.
    pub closed spec fn file_path(&self) -> String {
        self.path
    }

    /// The stored checkpoints, keyed by checkpoint id.
    pub closed spec fn contents(&self) -> Map<Seq<char>, CheckpointView> {
        self.records.contents()
    }

    /// A repository for `path` holding the checkpoints read from it; of two
    /// checkpoints with one id the later one is kept.
    pub fn new(path: String, loaded: Vec<ConversationCheckpointRecord>) -> (r: JsonConversationCheckpointRepository)
        ensures
            r.file_path() == path,
            forall|k: Seq<char>|
                #[trigger] r.contents().contains_key(k) <==> exists|i: int|
                    0 <= i < loaded@.len() && loaded@[i].checkpoint_id@ == k,
            forall|k: Seq<char>|
                #[trigger] r.contents().contains_key(k) ==> exists|i: int|
                    0 <= i < loaded@.len() && loaded@[i].checkpoint_id@ == k
                        && r.contents()[k] == loaded@[i]@
                        && forall|j: int|
                            i < j < loaded@.len() ==> loaded@[j].checkpoint_id@ != k,
    {
        let mut records = InMemoryConversationCheckpointRepository::new();
        let mut i: usize = 0;
        while i < loaded.len()
            invariant
                i <= loaded@.len(),
                forall|k: Seq<char>|
                    #[trigger] records.contents().contains_key(k) <==> exists|j: int|
                        0 <= j < i && loaded@[j].checkpoint_id@ == k,
                forall|k: Seq<char>|
                    #[trigger] records.contents().contains_key(k) ==> exists|j: int|
                        0 <= j < i && loaded@[j].checkpoint_id@ == k
                            && records.contents()[k] == loaded@[j]@
                            && forall|m: int|
                                j < m < i ==> loaded@[m].checkpoint_id@ != k,
            decreases loaded@.len() - i,
        {
            let rec = loaded[i].duplicate();
            let ghost prev = records.contents();
            records.save(rec);
            proof {
                assert forall|k: Seq<char>| #[trigger] records.contents().contains_key(k) implies
                    exists|j: int|
                        0 <= j < i + 1 && loaded@[j].checkpoint_id@ == k
                            && records.contents()[k] == loaded@[j]@
                            && forall|m: int|
                                j < m < i + 1 ==> loaded@[m].checkpoint_id@ != k by {
                    if k == loaded@[i as int].checkpoint_id@ {
                        assert(records.contents()[k] == loaded@[i as int]@);
                    } else {
                        assert(prev.contains_key(k));
                        let j = choose|j: int|
                            0 <= j < i && loaded@[j].checkpoint_id@ == k
                                && prev[k] == loaded@[j]@
                                && forall|m: int| j < m < i ==> loaded@[m].checkpoint_id@ != k;
                        assert(records.contents()[k] == loaded@[j]@);
                    }
                }
            }
            i = i + 1;
        }
        JsonConversationCheckpointRepository { path, records }
    }

    /// The path of the checkpoint file.
    pub fn path(&self) -> (r: &String)
        ensures
            *r == self.file_path(),
    {
        &self.path
    }

    /// Saves a checkpoint, replacing the one with the same id.
    pub fn save(&mut self, record: ConversationCheckpointRecord)
        ensures
            final(self).contents() == old(self).contents().insert(record.checkpoint_id@, record@),
            final(self).file_path() == old(self).file_path(),
    {
        self.records.save(record);
    }

    /// The checkpoint with an id, if stored.
    pub fn load(&self, checkpoint_id: &str) -> (r: Option<ConversationCheckpointRecord>)
        ensures
            r is Some <==> self.contents().contains_key(checkpoint_id@),
            r matches Some(c) ==> c@ == self.contents()[checkpoint_id@],
    {
        self.records.load(checkpoint_id)
    }

    /// Every checkpoint, newest first, ties by checkpoint id.
    pub fn list(&self) -> (r: Vec<ConversationCheckpointRecord>)
        ensures
            is_listed::<ConversationCheckpointRecord>(views(r@)),
            forall|i: int|
                0 <= i < r@.len() ==> self.contents().contains_key(#[trigger] r@[i]@.checkpoint_id@)
                    && self.contents()[r@[i]@.checkpoint_id@] == r@[i]@,
            forall|k: Seq<char>|
                #[trigger] self.contents().contains_key(k) ==> exists|i: int|
                    0 <= i < r@.len() && r@[i].checkpoint_id@ == k,
    {
        self.records.list()
    }
}


impl ConversationCheckpointRecord {
    /// The checkpoint `checkpoint_id` of conversation
    /// `source_conversation_id`, holding `history`, taken at `created_at_ms`.
    pub fn from_snapshot(
        checkpoint_id: String,
        source_conversation_id: String,
        title: String,
        target_kind: TurnTargetKind,
        target_id: String,
        history: &Vec<TurnMessage>,
        created_at_ms: u64,
    ) -> (r: ConversationCheckpointRecord)
        ensures
            r.checkpoint_id == checkpoint_id,
            r.source_conversation_id == source_conversation_id,
            r.title == title,
            r.target_kind == target_kind,
            r.target_id == target_id,
            r.created_at_ms == created_at_ms,
            history_stored_is(history@, r.history@),
    {
        ConversationCheckpointRecord {
            checkpoint_id,
            source_conversation_id,
            title,
            target_kind,
            target_id,
            created_at_ms,
            history: store_history(history),
        }
    }

    /// The conversation history this checkpoint restores.
    pub fn to_snapshot(&self) -> (r: Vec<TurnMessage>)
        ensures
            history_restored_is(self.history@, r@),
    {
        restore_history(&self.history)
    }
}

} // verus!
