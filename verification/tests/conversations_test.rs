use argusx::chat::checkpoints::{
    ConversationCheckpointSummary, CreateConversationCheckpointInput,
    InMemoryConversationCheckpointRepository, RestoreConversationCheckpointInput,
};
use argusx::chat::compression::{
    ConversationCompressionPolicy, NoopConversationCompressionPolicy,
    ThresholdConversationCompressionPolicy,
};
use argusx::chat::error::TurnError;
use argusx::chat::events::{ContinueConversationInput, StartConversationInput, TurnTargetKind};
use argusx::chat::manager::{
    allocate_conversation_turn, conversation_title, normalize_thread_status, title_from_history,
    ConversationManager, FinishedTurn,
};
use argusx::chat::storage::{
    ConversationRecord, InMemoryConversationRepository, JsonConversationRepository,
    StoredConversationMessage,
};
use argusx::chat::threads::{
    ConversationThreadRecord, CreateConversationThreadInput, JsonConversationThreadRepository,
    RestartConversationInput, ThreadCatalogFile, ThreadStatus,
};

fn user(text: &str) -> StoredConversationMessage {
    StoredConversationMessage::User { content: text.to_string() }
}

fn assistant(text: &str) -> StoredConversationMessage {
    StoredConversationMessage::AssistantText { content: text.to_string() }
}

fn record(id: &str, history: Vec<StoredConversationMessage>, at: u64) -> ConversationRecord {
    ConversationRecord {
        conversation_id: id.to_string(),
        target_kind: TurnTargetKind::Agent,
        target_id: "agent-1".to_string(),
        history,
        updated_at_ms: at,
    }
}

fn message(e: TurnError) -> String {
    e.message().clone()
}

#[test]
fn titles_follow_the_first_prompt_line() {
    assert_eq!(conversation_title("  Fix the build\nsecond line"), "Fix the build");
    assert_eq!(conversation_title("   "), "New Thread");
    assert_eq!(conversation_title("line\r\nnext"), "line");
    let long = "x".repeat(60);
    assert_eq!(conversation_title(&long).chars().count(), 48);
    assert_eq!(title_from_history(&vec![assistant("hi"), user(" Plan it ")], "agent-1"), "Plan it");
    assert_eq!(title_from_history(&vec![assistant("hi")], "agent-1"), "agent-1");
}

#[test]
fn running_threads_are_read_back_as_restartable() {
    assert_eq!(normalize_thread_status(ThreadStatus::Running), ThreadStatus::Restartable);
    assert_eq!(normalize_thread_status(ThreadStatus::Idle), ThreadStatus::Idle);
    let thread = ConversationThreadRecord {
        conversation_id: "c2".into(),
        title: "Thread".into(),
        target_kind: TurnTargetKind::Agent,
        target_id: "agent-1".into(),
        updated_at_ms: 50,
        pending_prompt: Some("interrupted".into()),
        status: ThreadStatus::Running,
    };
    let manager = ConversationManager::new_with_repositories(
        vec![record("c1", vec![user("hello there")], 10)],
        vec![thread],
        Some("c2".into()),
        NoopConversationCompressionPolicy,
    );
    let threads = manager.list_threads();
    assert_eq!(threads.len(), 2);
    assert_eq!(threads[0].conversation_id, "c2");
    assert_eq!(threads[0].status, ThreadStatus::Restartable);
    assert!(threads[0].is_active);
    assert_eq!(threads[1].title, "hello there");
    assert!(!threads[1].is_active);
    let (_, history, prompt) = manager
        .restart_conversation(&RestartConversationInput { conversation_id: "c2".into() })
        .expect("restartable");
    assert!(history.is_empty());
    assert_eq!(prompt, "interrupted");
}

#[test]
fn unknown_active_thread_is_dropped_on_load() {
    let manager = ConversationManager::new_with_repositories(
        vec![record("c1", vec![], 10)],
        vec![],
        Some("gone".into()),
        NoopConversationCompressionPolicy,
    );
    assert!(manager.list_threads().iter().all(|t| !t.is_active));
}

#[test]
fn create_switch_and_list_threads() {
    let mut manager = ConversationManager::new();
    let a = manager.create_thread(
        CreateConversationThreadInput { title: "A".into(), target_kind: TurnTargetKind::Agent, target_id: "t".into() },
        100,
    )
    .expect("fresh id");
    assert!(a.is_active);
    assert_eq!(a.conversation_id.len(), 36);
    let b = manager.create_thread(
        CreateConversationThreadInput { title: "B".into(), target_kind: TurnTargetKind::Workflow, target_id: "w".into() },
        200,
    )
    .expect("fresh id");
    let listed = manager.list_threads();
    assert_eq!(listed.len(), 2);
    assert_eq!(listed[0].conversation_id, b.conversation_id);
    assert!(listed[0].is_active && !listed[1].is_active);
    let switched = manager.switch_thread(a.conversation_id.clone()).expect("exists");
    assert!(switched.is_active);
    assert_eq!(switched.title, "A");
    let listed = manager.list_threads();
    assert!(listed.iter().find(|t| t.conversation_id == a.conversation_id).unwrap().is_active);
    let err = manager.switch_thread("missing".into()).unwrap_err();
    assert_eq!(message(err), "conversation not found: missing");
}

#[test]
fn one_turn_at_a_time_and_cancel_clears_it() {
    let mut manager = ConversationManager::new();
    let ids = allocate_conversation_turn().expect("fresh ids");
    let started = manager.start_conversation(
        StartConversationInput { prompt: "Hello world".into(), target_kind: TurnTargetKind::Agent, target_id: "t".into() },
        ids.conversation_id.clone(),
        ids.turn_id.clone(),
        10,
    );
    assert_eq!(started.turn_id, ids.turn_id);
    let snap = manager.snapshot(&ids.conversation_id).unwrap();
    assert_eq!(snap.status, ThreadStatus::Running);
    assert_eq!(snap.title, "Hello world");
    assert_eq!(snap.active_turn_id, Some(ids.turn_id.clone()));
    let err = manager
        .continue_conversation(&ContinueConversationInput { conversation_id: ids.conversation_id.clone(), prompt: "again".into() })
        .unwrap_err();
    assert_eq!(message(err), "conversation already has an active turn");
    manager.cancel_conversation(&ids.conversation_id).expect("cancel");
    let snap = manager.snapshot(&ids.conversation_id).unwrap();
    assert_eq!(snap.status, ThreadStatus::Idle);
    assert_eq!(snap.active_turn_id, None);
    assert_eq!(manager.thread_record_of(&ids.conversation_id).unwrap().pending_prompt, None);
    assert!(manager.cancel_conversation("nope").is_err());
    let (turn_id, history) = manager
        .continue_conversation(&ContinueConversationInput { conversation_id: ids.conversation_id.clone(), prompt: "again".into() })
        .expect("idle");
    assert!(history.is_empty());
    manager.begin_turn(&ids.conversation_id, turn_id.clone(), Some("again".into()), 20);
    assert_eq!(manager.snapshot(&ids.conversation_id).unwrap().active_turn_id, Some(turn_id));
}

#[test]
fn outcomes_update_the_conversation() {
    let mut manager = ConversationManager::new();
    manager.start_conversation(
        StartConversationInput { prompt: "p".into(), target_kind: TurnTargetKind::Agent, target_id: "t".into() },
        "c".into(),
        "t1".into(),
        1,
    );
    let stale = manager.apply_outcome("c", "t0", FinishedTurn::Cancelled, 2);
    assert!(stale.is_none());
    assert_eq!(manager.snapshot("c").unwrap().active_turn_id, Some("t1".to_string()));
    let saved = manager
        .apply_outcome("c", "t1", FinishedTurn::Completed { transcript: vec![user("p"), assistant("done")] }, 3)
        .expect("record to store")
        .expect("stored as it is");
    assert_eq!(saved.history.len(), 2);
    assert_eq!(saved.updated_at_ms, 3);
    let snap = manager.snapshot("c").unwrap();
    assert_eq!(snap.status, ThreadStatus::Idle);
    assert_eq!(snap.active_turn_id, None);
    assert_eq!(snap.history.len(), 2);

    manager.begin_turn("c", "t2".into(), Some("q".into()), 4);
    assert!(manager.apply_outcome("c", "t2", FinishedTurn::Failed, 5).is_none());
    assert_eq!(manager.snapshot("c").unwrap().status, ThreadStatus::Restartable);
    let (_, _, prompt) = manager
        .restart_conversation(&RestartConversationInput { conversation_id: "c".into() })
        .expect("restart");
    assert_eq!(prompt, "q");
    assert!(manager.apply_outcome("missing", "t", FinishedTurn::Failed, 6).is_none());
}

#[test]
fn completed_turn_record_goes_through_the_compression_policy() {
    let mut manager = ConversationManager::new_with_repositories(
        vec![],
        vec![],
        None,
        ThresholdConversationCompressionPolicy::new(2, 1),
    );
    manager.start_conversation(
        StartConversationInput { prompt: "p".into(), target_kind: TurnTargetKind::Agent, target_id: "t".into() },
        "c".into(),
        "t1".into(),
        1,
    );
    let transcript = vec![user("p"), assistant("a"), user("q"), assistant("b")];
    let stored = manager
        .apply_outcome("c", "t1", FinishedTurn::Completed { transcript }, 7)
        .expect("record to store")
        .expect("compressed");
    assert_eq!(stored.conversation_id, "c");
    assert_eq!(stored.updated_at_ms, 7);
    assert_eq!(
        stored.history,
        vec![
            StoredConversationMessage::SystemNote {
                content: "Compressed 3 earlier messages into a summary checkpoint.".into()
            },
            assistant("b"),
        ]
    );
    assert_eq!(manager.snapshot("c").unwrap().history.len(), 4);
}

#[test]
fn restart_refusals() {
    let mut manager = ConversationManager::new();
    manager.start_conversation(
        StartConversationInput { prompt: "p".into(), target_kind: TurnTargetKind::Agent, target_id: "t".into() },
        "c".into(),
        "t1".into(),
        1,
    );
    let input = RestartConversationInput { conversation_id: "c".into() };
    assert_eq!(message(manager.restart_conversation(&input).unwrap_err()), "conversation already has an active turn");
    manager.cancel_conversation("c").unwrap();
    assert_eq!(message(manager.restart_conversation(&input).unwrap_err()), "conversation is not restartable");
    let missing = RestartConversationInput { conversation_id: "x".into() };
    assert_eq!(message(manager.restart_conversation(&missing).unwrap_err()), "conversation not found: x");
}

#[test]
fn checkpoint_then_restore_gives_back_the_history() {
    let mut manager = ConversationManager::new_with_repositories(
        vec![record("c1", vec![user("hello"), assistant("hi")], 10)],
        vec![],
        None,
        NoopConversationCompressionPolicy,
    );
    let checkpoint = manager
        .create_checkpoint(CreateConversationCheckpointInput { conversation_id: "c1".into(), title: None }, 20)
        .expect("checkpoint");
    assert_eq!(checkpoint.title, "hello");
    assert_eq!(checkpoint.source_conversation_id, "c1");
    assert_eq!(checkpoint.history.len(), 2);
    let summary = ConversationCheckpointSummary::from(&checkpoint);
    assert_eq!(summary.created_at_ms, 20);
    let mut repo = InMemoryConversationCheckpointRepository::new();
    repo.save(checkpoint);
    let loaded = repo.load(&summary.checkpoint_id);
    let (thread, stored) = manager
        .restore_checkpoint(loaded, RestoreConversationCheckpointInput { checkpoint_id: summary.checkpoint_id.clone(), title: None }, 30)
        .expect("restore");
    assert_eq!(thread.title, "hello (restored)");
    assert!(thread.is_active);
    assert_eq!(stored.history, vec![user("hello"), assistant("hi")]);
    assert_eq!(manager.snapshot(&thread.conversation_id).unwrap().history.len(), 2);
    let err = manager
        .restore_checkpoint(None, RestoreConversationCheckpointInput { checkpoint_id: "nope".into(), title: None }, 40)
        .unwrap_err();
    assert_eq!(message(err), "checkpoint not found: nope");
}

#[test]
fn checkpoint_refused_while_running() {
    let mut manager = ConversationManager::new();
    manager.start_conversation(
        StartConversationInput { prompt: "p".into(), target_kind: TurnTargetKind::Agent, target_id: "t".into() },
        "c".into(),
        "t1".into(),
        1,
    );
    let err = manager
        .create_checkpoint(CreateConversationCheckpointInput { conversation_id: "c".into(), title: Some("x".into()) }, 2)
        .unwrap_err();
    assert_eq!(message(err), "cannot checkpoint a conversation with an active turn");
}

#[test]
fn threshold_compression_keeps_recent_messages() {
    let history: Vec<_> = (0..6).map(|i| user(&format!("m{i}"))).collect();
    let policy = ThresholdConversationCompressionPolicy::new(4, 2);
    let out = policy.compress(record("c", history.clone(), 5)).expect("compress");
    assert_eq!(out.history.len(), 3);
    assert_eq!(
        out.history[0],
        StoredConversationMessage::SystemNote {
            content: "Compressed 4 earlier messages into a summary checkpoint.".into()
        }
    );
    assert_eq!(out.history[1], user("m4"));
    assert_eq!(out.history[2], user("m5"));
    assert_eq!(out.updated_at_ms, 5);
    let small = policy.compress(record("c", history[..4].to_vec(), 5)).unwrap();
    assert_eq!(small.history.len(), 4);
    let all = ThresholdConversationCompressionPolicy::new(1, 10).compress(record("c", history.clone(), 5)).unwrap();
    assert_eq!(all.history.len(), 7);
    assert_eq!(
        all.history[0],
        StoredConversationMessage::SystemNote {
            content: "Compressed 0 earlier messages into a summary checkpoint.".into()
        }
    );
    let same = NoopConversationCompressionPolicy.compress(record("c", history.clone(), 5)).unwrap();
    assert_eq!(same.history, history);
}

#[test]
fn repositories_keep_the_latest_record_and_list_newest_first() {
    let mut repo = InMemoryConversationRepository::new();
    repo.save(record("b", vec![], 5));
    repo.save(record("a", vec![], 5));
    repo.save(record("c", vec![], 9));
    repo.save(record("a", vec![user("x")], 5));
    let listed: Vec<String> = repo.list().into_iter().map(|r| r.conversation_id).collect();
    assert_eq!(listed, vec!["c", "a", "b"]);
    assert_eq!(repo.load("a").unwrap().history.len(), 1);
    assert!(repo.load("z").is_none());

    let json = JsonConversationRepository::new(
        "/tmp/conversations.json".into(),
        vec![record("a", vec![], 1), record("a", vec![user("later")], 2)],
    );
    assert_eq!(json.path(), "/tmp/conversations.json");
    assert_eq!(json.load("a").unwrap().updated_at_ms, 2);
    assert_eq!(json.list().len(), 1);
}

fn thread(id: &str, updated_at_ms: u64) -> ConversationThreadRecord {
    ConversationThreadRecord {
        conversation_id: id.into(),
        title: format!("title {id}"),
        target_kind: TurnTargetKind::Agent,
        target_id: "agent".into(),
        updated_at_ms,
        pending_prompt: None,
        status: ThreadStatus::Idle,
    }
}

#[test]
fn reopened_catalog_file_gives_back_the_threads() {
    let empty = ThreadCatalogFile { active_conversation_id: None, threads: vec![] };
    let mut written = JsonConversationThreadRepository::new("/tmp/threads.json".into(), empty);
    assert!(written.list_threads().is_empty());
    assert_eq!(written.active_thread_id(), None);
    written.save_thread(thread("a", 1));
    written.save_thread(thread("b", 3));
    written.save_thread(thread("a", 2));
    written.set_active_thread(Some("b".into()));
    let reopened = JsonConversationThreadRepository::new("/tmp/threads.json".into(), written.catalog_file());
    assert_eq!(reopened.list_threads(), written.list_threads());
    assert_eq!(reopened.active_thread_id(), Some("b".to_string()));
    assert_eq!(reopened.load_thread("a").unwrap().updated_at_ms, 2);
}

#[test]
fn reopened_conversation_file_gives_back_the_records() {
    let mut written = JsonConversationRepository::new("/tmp/records.json".into(), vec![]);
    assert!(written.list().is_empty());
    written.save(record("a", vec![user("x")], 4));
    written.save(record("b", vec![], 9));
    written.save(record("a", vec![user("y")], 5));
    let reopened = JsonConversationRepository::new("/tmp/records.json".into(), written.list());
    let ids: Vec<String> = reopened.list().into_iter().map(|r| r.conversation_id).collect();
    assert_eq!(ids, vec!["b", "a"]);
    assert_eq!(reopened.load("a").unwrap().history, vec![user("y")]);
    assert_eq!(reopened.load("b").unwrap().updated_at_ms, 9);
}

#[test]
fn threads_and_checkpoints_take_given_ids() {
    let mut manager = ConversationManager::new();
    let t = manager.create_thread_with_id(
        CreateConversationThreadInput { title: "T".into(), target_kind: TurnTargetKind::Agent, target_id: "a".into() },
        "conv-given".into(),
        5,
    );
    assert_eq!(t.conversation_id, "conv-given");
    assert!(t.is_active);
    let c = manager
        .create_checkpoint_with_id(CreateConversationCheckpointInput { conversation_id: "conv-given".into(), title: None }, "cp-1".into(), 6)
        .expect("checkpoint");
    assert_eq!(c.checkpoint_id, "cp-1");
    let (summary, record) = manager
        .restore_checkpoint_with_id(
            Some(c),
            RestoreConversationCheckpointInput { checkpoint_id: "cp-1".into(), title: None },
            "conv-restored".into(),
            7,
        )
        .expect("restore");
    assert_eq!(summary.conversation_id, "conv-restored");
    assert_eq!(record.conversation_id, "conv-restored");
    let (turn_id, history) = manager
        .continue_conversation_with_turn_id(
            &ContinueConversationInput { conversation_id: "conv-restored".into(), prompt: "go".into() },
            "turn-given".into(),
        )
        .expect("continue");
    assert_eq!(turn_id, "turn-given");
    assert!(history.is_empty());
    let err = manager
        .restart_conversation_with_turn_id(&RestartConversationInput { conversation_id: "conv-restored".into() }, "t".into())
        .unwrap_err();
    assert_eq!(message(err), "conversation is not restartable");
}
