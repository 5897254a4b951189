use argusx::agent_profiles::AgentProfileSummary;
use argusx::persistence::chat_repo::{
    chat_message, message_query, sort_by_cursor, transcript_item_to_role_and_content, ChatMessageQuery,
    ChatMessageRange, ChatRepo, ChatRepoError, SqlValue, TranscriptEntry, DAY_MS,
};

#[test]
fn default_query_covers_the_last_day() {
    let q = ChatMessageQuery::default();
    assert_eq!(q.range, ChatMessageRange::Last24Hours);
    assert_eq!(q.cursor, None);
    assert_eq!(q.limit, 300);
    let (sql, binds) = message_query("s1", q, 10 * DAY_MS);
    assert!(sql.contains(">= ?"));
    assert!(!sql.contains("ti.id < ?"));
    assert!(sql.ends_with(" ORDER BY ti.id DESC LIMIT ? "));
    assert_eq!(
        binds,
        vec![SqlValue::Text("s1".into()), SqlValue::Integer(9 * DAY_MS), SqlValue::Integer(300)]
    );
}

#[test]
fn all_query_with_cursor_and_minimum_limit() {
    let q = ChatMessageQuery { range: ChatMessageRange::All, cursor: Some(42), limit: 0 };
    let (sql, binds) = message_query("s1", q, 0);
    assert!(!sql.contains(">= ?"));
    assert!(sql.contains(" AND ti.id < ? "));
    assert_eq!(binds, vec![SqlValue::Text("s1".into()), SqlValue::Integer(42), SqlValue::Integer(1)]);
}

#[test]
fn transcript_items_show_as_messages() {
    let user = TranscriptEntry::UserMessage { parts: vec!["a".into(), "  ".into(), "{\"k\":1}".into()] };
    assert_eq!(
        transcript_item_to_role_and_content(user),
        Some(("user".to_string(), "a\n{\"k\":1}".to_string()))
    );
    assert_eq!(transcript_item_to_role_and_content(TranscriptEntry::UserMessage { parts: vec![" ".into()] }), None);
    assert_eq!(
        transcript_item_to_role_and_content(TranscriptEntry::AssistantMessage { text: "hi".into() }),
        Some(("assistant".to_string(), "hi".to_string()))
    );
    assert_eq!(
        transcript_item_to_role_and_content(TranscriptEntry::SystemNote { message: "n".into() }),
        Some(("system".to_string(), "n".to_string()))
    );
    assert_eq!(transcript_item_to_role_and_content(TranscriptEntry::Other), None);
}

#[test]
fn messages_are_listed_oldest_cursor_first() {
    let m = |cursor: i64| chat_message(cursor, "s".into(), 1, 100, "assistant".into(), format!("m{cursor}"));
    let sorted = sort_by_cursor(vec![m(3), m(1), m(2)]);
    let cursors: Vec<i64> = sorted.iter().map(|x| x.cursor).collect();
    assert_eq!(cursors, vec![1, 2, 3]);
    assert_eq!(sorted[0].id, "1");
    assert_eq!(sorted[0].created_at, 101);
    assert_eq!(chat_message(-5, "s".into(), 0, 0, "r".into(), "c".into()).id, "-5");
    assert_eq!(chat_message(1, "s".into(), 10, i64::MAX, "r".into(), "c".into()).created_at, i64::MAX);
}

#[test]
fn chat_repo_remembers_its_database() {
    assert_eq!(ChatRepo::new("/tmp/chat.db".into()).db_path(), "/tmp/chat.db");
    let p = AgentProfileSummary::from_profile("a".into(), "Agent".into(), "d".into());
    assert_eq!(p.label, "Agent");
}


#[test]
fn chat_repo_error_texts() {
    assert_eq!(ChatRepoError::Sqlite("locked".into()).to_string(), "sqlite error: locked");
    assert_eq!(ChatRepoError::Serde("bad".into()).to_string(), "serde error: bad");
    assert_eq!(ChatRepoError::Schema("old".into()).to_string(), "schema error: old");
}
