//! Conversation threads: their records, summaries, and the repositories that
//! keep them together with the active thread.
use vstd::prelude::*;

use crate::catalog::{is_listed, views, Catalog, Keyed};
use crate::chat::events::TurnTargetKind;
use crate::chat::storage::clone_opt;

verus! {

/// Whether a thread is idle, running a turn, or holds an interrupted turn that
/// can be restarted.
#[derive(Debug, Clone, Copy, PartialEq, Eq, Structural)]
pub enum ThreadStatus {
    Idle,
    Running,
    Restartable,
}

/// The persisted state of a thread.
#[derive(Debug, PartialEq, Eq)]
pub struct ConversationThreadRecord {
    pub conversation_id: String,
    pub title: String,
    pub target_kind: TurnTargetKind,
    pub target_id: String,
    pub updated_at_ms: u64,
    pub pending_prompt: Option<String>,
    pub status: ThreadStatus,
}

impl View for ConversationThreadRecord {
    type V = ConversationThreadRecord;

    open spec fn view(&self) -> ConversationThreadRecord {
        *self
    }
}

impl Keyed for ConversationThreadRecord {
    open spec fn key_of(v: ConversationThreadRecord) -> Seq<char> {
        v.conversation_id@
    }

    open spec fn stamp_of(v: ConversationThreadRecord) -> u64 {
        v.updated_at_ms
    }

    fn key(&self) -> (r: &str) {
        self.conversation_id.as_str()
    }

    fn stamp(&self) -> (r: u64) {
        self.updated_at_ms
    }

    fn duplicate(&self) -> (r: ConversationThreadRecord) {
        ConversationThreadRecord {
            conversation_id: self.conversation_id.clone(),
            title: self.title.clone(),
            target_kind: self.target_kind,
            target_id: self.target_id.clone(),
            updated_at_ms: self.updated_at_ms,
            pending_prompt: clone_opt(&self.pending_prompt),
            status: self.status,
        }
    }
}

impl Clone for ConversationThreadRecord {
    fn clone(&self) -> (r: ConversationThreadRecord)
        ensures
            r == *self,
    {
        self.duplicate()
    }
}

/// A thread as listed to the user.
#[derive(Debug, Clone, PartialEq, Eq)]
pub struct ConversationThreadSummary {
    pub conversation_id: String,
    pub title: String,
    pub target_kind: TurnTargetKind,
    pub target_id: String,
    pub updated_at_ms: u64,
    pub status: ThreadStatus,
    pub is_active: bool,
}

/// Whether `s` lists `r` with the given active flag.
pub open spec fn summary_of(r: ConversationThreadRecord, is_active: bool, s: ConversationThreadSummary) -> bool {
    &&& s.conversation_id == r.conversation_id
    &&& s.title == r.title
    &&& s.target_kind == r.target_kind
    &&& s.target_id == r.target_id
    &&& s.updated_at_ms == r.updated_at_ms
    &&& s.status == r.status
    &&& s.is_active == is_active
}

impl ConversationThreadSummary {
    /// The summary of a thread record.
    pub fn from_record(record: ConversationThreadRecord, is_active: bool) -> (s: ConversationThreadSummary)
        ensures
            summary_of(record, is_active, s),
    {
        ConversationThreadSummary {
            conversation_id: record.conversation_id,
            title: record.title,
            target_kind: record.target_kind,
            target_id: record.target_id,
            updated_at_ms: record.updated_at_ms,
            status: record.status,
            is_active,
        }
    }
}

/// A request to create a thread.
#[derive(Debug, Clone, PartialEq, Eq)]
pub struct CreateConversationThreadInput {
    pub title: String,
    pub target_kind: TurnTargetKind,
    pub target_id: String,
}

/// A request to switch the active thread.
#[derive(Debug, Clone, PartialEq, Eq)]
pub struct SwitchConversationThreadInput {
    pub conversation_id: String,
}

/// A request to restart an interrupted turn.
#[derive(Debug, Clone, PartialEq, Eq)]
pub struct RestartConversationInput {
    pub conversation_id: String,
}

/// Thread records kept in memory, with the active thread.
pub struct InMemoryConversationThreadRepository {
    active_thread_id: Option<String>,
    records: Catalog<ConversationThreadRecord>,
}

impl InMemoryConversationThreadRepository {
    /// The stored threads, keyed by conversation id.
    pub closed spec fn contents(&self) -> Map<Seq<char>, ConversationThreadRecord> {
        self.records.contents()
    }

    /// The active thread, if any.
    pub closed spec fn active(&self) -> Option<String> {
        self.active_thread_id
    }

    /// An empty repository with no active thread.
    pub fn new() -> (r: InMemoryConversationThreadRepository)
        ensures
            r.contents() == Map::<Seq<char>, ConversationThreadRecord>::empty(),
            r.active() is None,
    {
        InMemoryConversationThreadRepository { active_thread_id: None, records: Catalog::new() }
    }

    /// Saves a thread, replacing the one with the same conversation id.
    pub fn save_thread(&mut self, record: ConversationThreadRecord)
        ensures
            final(self).contents() == old(self).contents().insert(record.conversation_id@, record),
            final(self).active() == old(self).active(),
    {
        self.records.save(record);
    }

    /// The thread with a conversation id, if stored.
    pub fn load_thread(&self, conversation_id: &str) -> (r: Option<ConversationThreadRecord>)
        ensures
            r is Some <==> self.contents().contains_key(conversation_id@),
            r matches Some(t) ==> t == self.contents()[conversation_id@],
    {
        self.records.load(conversation_id)
    }

    /// Every thread, most recently updated first, ties by conversation id.
    pub fn list_threads(&self) -> (r: Vec<ConversationThreadRecord>)
        ensures
            is_listed::<ConversationThreadRecord>(views(r@)),
            forall|i: int|
                0 <= i < r@.len() ==> self.contents().contains_key(#[trigger] r@[i].conversation_id@)
                    && self.contents()[r@[i].conversation_id@] == r@[i],
            forall|k: Seq<char>|
                #[trigger] self.contents().contains_key(k) ==> exists|i: int|
                    0 <= i < r@.len() && r@[i].conversation_id@ == k,
    {
        let r = self.records.list();
        assert forall|i: int| 0 <= i < r@.len() implies self.contents().contains_key(
            #[trigger] r@[i].conversation_id@,
        ) && self.contents()[r@[i].conversation_id@] == r@[i] by {
            assert(r@[i]@ == r@[i]);
        }
        r
    }

    /// The active thread, if any.
    pub fn active_thread_id(&self) -> (r: Option<String>)
        ensures
            r == self.active(),
    {
        clone_opt(&self.active_thread_id)
    }

    /// Sets or clears the active thread.
    pub fn set_active_thread(&mut self, conversation_id: Option<String>)
        ensures
            final(self).active() == conversation_id,
            final(self).contents() == old(self).contents(),
    {
        self.active_thread_id = conversation_id;
    }
}

/// The persisted catalog file of threads: the active thread and the threads.
#[derive(Debug, Clone, PartialEq, Eq)]
pub struct ThreadCatalogFile {
    pub active_conversation_id: Option<String>,
    pub threads: Vec<ConversationThreadRecord>,
}

/// Whether `threads` lists exactly the threads of `contents`: each listed
/// thread is the stored one of its conversation, and each stored thread is
/// listed.
pub open spec fn lists_threads(
    contents: Map<Seq<char>, ConversationThreadRecord>,
    threads: Seq<ConversationThreadRecord>,
) -> bool {
    &&& forall|i: int|
        0 <= i < threads.len() ==> contents.contains_key(#[trigger] threads[i].conversation_id@)
            && contents[threads[i].conversation_id@] == threads[i]
    &&& forall|k: Seq<char>|
        #[trigger] contents.contains_key(k) ==> exists|i: int|
            0 <= i < threads.len() && threads[i].conversation_id@ == k
}

/// Whether `contents` holds what a read of `threads` gives: one thread per
/// listed conversation, the last listed one where a conversation is listed
/// twice.
pub open spec fn read_from_threads(
    contents: Map<Seq<char>, ConversationThreadRecord>,
    threads: Seq<ConversationThreadRecord>,
) -> bool {
    &&& forall|k: Seq<char>|
        #[trigger] contents.contains_key(k) <==> exists|i: int|
            0 <= i < threads.len() && threads[i].conversation_id@ == k
    &&& forall|k: Seq<char>|
        #[trigger] contents.contains_key(k) ==> exists|i: int|
            0 <= i < threads.len() && threads[i].conversation_id@ == k && contents[k] == threads[i]
                && forall|j: int| i < j < threads.len() ==> threads[j].conversation_id@ != k
}

/// Thread records backed by a catalog file at `path`; the caller writes
/// `catalog_file()` back to the file after each change.
pub struct JsonConversationThreadRepository {
    path: String,
    state: InMemoryConversationThreadRepository,
}

impl JsonConversationThreadRepository {
    /// The path of the catalog file.
    pub closed spec fn file_path(&self) -> String {
        self.path
    }

    /// The path of the catalog file.
    pub fn path(&self) -> (r: &String)
        ensures
            *r == self.file_path(),
    {
        &self.path
    }

    /// The stored threads, keyed by conversation id.
    pub closed spec fn contents(&self) -> Map<Seq<char>, ConversationThreadRecord> {
        self.state.contents()
    }

    /// The active thread, if any.
    pub closed spec fn active(&self) -> Option<String> {
        self.state.active()
    }

    /// A repository for `path` holding what its catalog file held; of two
    /// threads with one conversation id the later one is kept.
    pub fn new(path: String, catalog: ThreadCatalogFile) -> (r: JsonConversationThreadRepository)
        ensures
            r.file_path() == path,
            r.active() == catalog.active_conversation_id,
            read_from_threads(r.contents(), catalog.threads@),
    {
        let mut state = InMemoryConversationThreadRepository::new();
        let mut i: usize = 0;
        while i < catalog.threads.len()
            invariant
                i <= catalog.threads@.len(),
                forall|k: Seq<char>|
                    #[trigger] state.contents().contains_key(k) <==> exists|j: int|
                        0 <= j < i && catalog.threads@[j].conversation_id@ == k,
                forall|k: Seq<char>|
                    #[trigger] state.contents().contains_key(k) ==> exists|j: int|
                        0 <= j < i && catalog.threads@[j].conversation_id@ == k
                            && state.contents()[k] == catalog.threads@[j]
                            && forall|m: int|
                                j < m < i ==> catalog.threads@[m].conversation_id@ != k,
                state.active() is None,
            decreases catalog.threads@.len() - i,
        {
            let rec = catalog.threads[i].duplicate();
            let ghost prev = state.contents();
            state.save_thread(rec);
            proof {
                assert forall|k: Seq<char>| #[trigger] state.contents().contains_key(k) implies
                    exists|j: int|
                        0 <= j < i + 1 && catalog.threads@[j].conversation_id@ == k
                            && state.contents()[k] == catalog.threads@[j]
                            && forall|m: int|
                                j < m < i + 1 ==> catalog.threads@[m].conversation_id@ != k by {
                    if k == catalog.threads@[i as int].conversation_id@ {
                        assert(state.contents()[k] == catalog.threads@[i as int]);
                    } else {
                        assert(prev.contains_key(k));
                        let j = choose|j: int|
                            0 <= j < i && catalog.threads@[j].conversation_id@ == k
                                && prev[k] == catalog.threads@[j]
                                && forall|m: int|
                                    j < m < i ==> catalog.threads@[m].conversation_id@ != k;
                        assert(state.contents()[k] == catalog.threads@[j]);
                    }
                }
            }
            i = i + 1;
        }
        state.set_active_thread(catalog.active_conversation_id);
        JsonConversationThreadRepository { path, state }
    }

    /// Saves a thread, replacing the one with the same conversation id.
    pub fn save_thread(&mut self, record: ConversationThreadRecord)
        ensures
            final(self).contents() == old(self).contents().insert(record.conversation_id@, record),
            final(self).active() == old(self).active(),
            final(self).file_path() == old(self).file_path(),
    {
        self.state.save_thread(record);
    }

    /// The thread with a conversation id, if stored.
    pub fn load_thread(&self, conversation_id: &str) -> (r: Option<ConversationThreadRecord>)
        ensures
            r is Some <==> self.contents().contains_key(conversation_id@),
            r matches Some(t) ==> t == self.contents()[conversation_id@],
    {
        self.state.load_thread(conversation_id)
    }

    /// Every thread, most recently updated first, ties by conversation id.
    pub fn list_threads(&self) -> (r: Vec<ConversationThreadRecord>)
        ensures
            is_listed::<ConversationThreadRecord>(views(r@)),
            forall|i: int|
                0 <= i < r@.len() ==> self.contents().contains_key(#[trigger] r@[i].conversation_id@)
                    && self.contents()[r@[i].conversation_id@] == r@[i],
            forall|k: Seq<char>|
                #[trigger] self.contents().contains_key(k) ==> exists|i: int|
                    0 <= i < r@.len() && r@[i].conversation_id@ == k,
    {
        self.state.list_threads()
    }

    /// The active thread, if any.
    pub fn active_thread_id(&self) -> (r: Option<String>)
        ensures
            r == self.active(),
    {
        self.state.active_thread_id()
    }

    /// Sets or clears the active thread.
    pub fn set_active_thread(&mut self, conversation_id: Option<String>)
        ensures
            final(self).active() == conversation_id,
            final(self).contents() == old(self).contents(),
            final(self).file_path() == old(self).file_path(),
    {
        self.state.set_active_thread(conversation_id);
    }

    /// What the catalog file holds: the active thread, and the threads in
    /// listing order.
    pub fn catalog_file(&self) -> (f: ThreadCatalogFile)
        ensures
            f.active_conversation_id == self.active(),
            is_listed::<ConversationThreadRecord>(views(f.threads@)),
            lists_threads(self.contents(), f.threads@),
    {
        ThreadCatalogFile {
            active_conversation_id: self.state.active_thread_id(),
            threads: self.state.list_threads(),
        }
    }
}

/// Reopening the catalog file that a repository writes gives back its
/// threads and its active thread: for `file` as `catalog_file` hands it out
/// of `written`, a repository read from `file` holds what `written` holds.
pub proof fn lemma_reopened_catalog_gives_back(
    written: JsonConversationThreadRepository,
    file: ThreadCatalogFile,
    reopened: JsonConversationThreadRepository,
)
    requires
        file.active_conversation_id == written.active(),
        lists_threads(written.contents(), file.threads@),
        reopened.active() == file.active_conversation_id,
        read_from_threads(reopened.contents(), file.threads@),
    ensures
        reopened.contents() == written.contents(),
        reopened.active() == written.active(),
{
    let threads = file.threads@;
    let read = reopened.contents();
    let kept = written.contents();
    assert forall|k: Seq<char>| #[trigger] read.contains_key(k) <==> kept.contains_key(k) by {
        if read.contains_key(k) {
            let i = choose|i: int| 0 <= i < threads.len() && threads[i].conversation_id@ == k;
            assert(kept.contains_key(threads[i].conversation_id@));
        }
    }
    assert forall|k: Seq<char>| #[trigger] read.contains_key(k) implies read[k] == kept[k] by {
        let i = choose|i: int|
            0 <= i < threads.len() && threads[i].conversation_id@ == k && read[k] == threads[i]
                && forall|j: int| i < j < threads.len() ==> threads[j].conversation_id@ != k;
        assert(kept.contains_key(threads[i].conversation_id@));
    }
    assert(read =~= kept);
}

/// Reopening the catalog file that a repository writes lists the same
/// threads in the same order: for `file` as `catalog_file` hands it out of
/// `written`, the listing `listed` of a repository read from `file` is the
/// file's list of threads again.
pub proof fn lemma_reopened_catalog_lists_the_same(
    written: JsonConversationThreadRepository,
    file: ThreadCatalogFile,
    reopened: JsonConversationThreadRepository,
    listed: Seq<ConversationThreadRecord>,
)
    requires
        file.active_conversation_id == written.active(),
        is_listed::<ConversationThreadRecord>(views(file.threads@)),
        lists_threads(written.contents(), file.threads@),
        reopened.active() == file.active_conversation_id,
        read_from_threads(reopened.contents(), file.threads@),
        is_listed::<ConversationThreadRecord>(views(listed)),
        lists_threads(reopened.contents(), listed),
    ensures
        listed == file.threads@,
{
    lemma_reopened_catalog_gives_back(written, file, reopened);
    let threads = file.threads@;
    let c = written.contents();
    assert(views(listed) =~= listed);
    assert(views(threads) =~= threads);
    assert forall|x: ConversationThreadRecord| listed.contains(x) <==> threads.contains(x) by {
        if listed.contains(x) {
            let i = choose|i: int| 0 <= i < listed.len() && listed[i] == x;
            assert(c.contains_key(listed[i].conversation_id@));
            let j = choose|j: int|
                0 <= j < threads.len() && threads[j].conversation_id@ == listed[i].conversation_id@;
            assert(c.contains_key(threads[j].conversation_id@));
        }
        if threads.contains(x) {
            let i = choose|i: int| 0 <= i < threads.len() && threads[i] == x;
            assert(c.contains_key(threads[i].conversation_id@));
            let j = choose|j: int|
                0 <= j < listed.len() && listed[j].conversation_id@ == threads[i].conversation_id@;
            assert(c.contains_key(listed[j].conversation_id@));
        }
    }
    crate::catalog::lemma_listing_unique::<ConversationThreadRecord>(listed, threads);
}

} // verus!
