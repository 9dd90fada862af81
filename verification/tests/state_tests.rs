use rob::llm::user_message;
use rob::state::{
    session_path, sessions_from_records, sort_sessions, updated_record, updated_record_at,
    SessionRecord,
    SessionSummary,
};

fn summary(id: &str, updated_at: u64) -> SessionSummary {
    SessionSummary { id: id.to_string(), updated_at, message_count: 0 }
}

#[test]
fn session_path_rejects_path_separators() {
    assert!(session_path("../bad").is_err());
}

#[test]
fn session_path_names_a_json_file() {
    assert_eq!(session_path("abc").unwrap(), "abc.json");
    assert!(session_path("   ").is_err());
    assert_eq!(
        session_path("a/b").unwrap_err().to_string(),
        "invalid session id `a/b`"
    );
}

#[test]
fn sessions_are_sorted_newest_first_and_stable() {
    let sorted = sort_sessions(vec![
        summary("a", 5),
        summary("b", 9),
        summary("c", 5),
        summary("d", 1),
    ]);
    let ids: Vec<&str> = sorted.iter().map(|s| s.id.as_str()).collect();
    assert_eq!(ids, vec!["b", "a", "c", "d"]);
}

#[test]
fn records_become_summaries() {
    let mut older = SessionRecord::new("old".to_string(), vec![user_message("x")]);
    older.updated_at = 1;
    let mut newer = SessionRecord::new("new".to_string(), vec![user_message("x"), user_message("y")]);
    newer.updated_at = 2;
    let list = sessions_from_records(vec![older, newer]);
    assert_eq!(list[0].id, "new");
    assert_eq!(list[0].message_count, 2);
    assert_eq!(list[1].id, "old");
}

#[test]
fn saving_keeps_creation_time() {
    let mut existing = SessionRecord::new("s".to_string(), vec![]);
    existing.created_at = 7;
    let saved = updated_record(Some(existing), "ignored", &[user_message("hi")]);
    assert_eq!(saved.id, "s");
    assert_eq!(saved.created_at, 7);
    assert_eq!(saved.messages.len(), 1);
    let fresh = updated_record(None, "new-id", &[]);
    assert_eq!(fresh.id, "new-id");
    assert!(fresh.updated_at >= fresh.created_at);
}

#[test]
fn records_are_stamped_with_the_given_time() {
    let created = SessionRecord::new_at("s".to_string(), vec![], 100);
    assert_eq!(created.created_at, 100);
    assert_eq!(created.updated_at, 100);
    let saved = updated_record_at(Some(created), "ignored", &[user_message("hi")], 250);
    assert_eq!(saved.id, "s");
    assert_eq!(saved.created_at, 100);
    assert_eq!(saved.updated_at, 250);
    assert_eq!(saved.messages.len(), 1);
    let fresh = updated_record_at(None, "new-id", &[], 7);
    assert_eq!(fresh.id, "new-id");
    assert_eq!(fresh.created_at, 7);
    assert_eq!(fresh.updated_at, 7);
}
