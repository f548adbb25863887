use nanogpt_core::store::Database;
use tempfile::NamedTempFile;

fn open_temp() -> (NamedTempFile, Database) {
    let tmp = NamedTempFile::new().unwrap();
    let db = Database::new(tmp.path().to_str().unwrap()).unwrap();
    (tmp, db)
}

#[test]
fn test_database_creation() {
    let tmp_file = NamedTempFile::new().unwrap();
    let db = Database::new(tmp_file.path().to_str().unwrap()).unwrap();

    let sessions = db.get_all_sessions().unwrap();
    assert_eq!(sessions.len(), 0);
}

#[test]
fn demo_session_scenario() {
    let (_tmp, mut db) = open_temp();
    let s = db.create_session("Demo", "gpt-x", "You are helpful.", 700, 1000).unwrap();
    assert_eq!(s.title, "Demo");
    assert_eq!(s.model, "gpt-x");
    assert_eq!(s.system_prompt, "You are helpful.");
    assert_eq!(s.temperature_milli, 700);
    assert_eq!(s.created_at, 1000);
    assert_eq!(s.updated_at, 1000);
    assert_eq!(s.id.len(), 36);

    let m1 = db.create_message(&s.id, "user", "hi", None, 1001).unwrap();
    let m2 = db.create_message(&s.id, "assistant", "hello!", Some(3), 1002).unwrap();

    let messages = db.get_messages(&s.id).unwrap();
    assert_eq!(messages.len(), 2);
    assert_eq!(messages[0].id, m1.id);
    assert_eq!(messages[0].role, "user");
    assert_eq!(messages[0].content, "hi");
    assert_eq!(messages[0].tokens, None);
    assert_eq!(messages[1].id, m2.id);
    assert_eq!(messages[1].role, "assistant");
    assert_eq!(messages[1].content, "hello!");
    assert_eq!(messages[1].tokens, Some(3));

    let fetched = db.get_session(&s.id).unwrap().unwrap();
    assert!(fetched.updated_at > s.created_at);
    assert_eq!(fetched.updated_at, 1002);
    assert_eq!(fetched.created_at, 1000);
}

#[test]
fn delete_session_cascades_to_its_messages() {
    let (_tmp, mut db) = open_temp();
    let s1 = db.create_session("One", "m", "p", 700, 10).unwrap();
    let s2 = db.create_session("Two", "m", "p", 700, 11).unwrap();
    db.create_message(&s1.id, "user", "a", None, 12).unwrap();
    db.create_message(&s1.id, "user", "b", None, 13).unwrap();
    db.create_message(&s2.id, "user", "c", None, 14).unwrap();

    db.delete_session(&s1.id).unwrap();

    assert!(db.get_session(&s1.id).unwrap().is_none());
    assert!(db.get_messages(&s1.id).unwrap().is_empty());
    let kept = db.get_messages(&s2.id).unwrap();
    assert_eq!(kept.len(), 1);
    assert_eq!(kept[0].content, "c");
}

#[test]
fn messages_come_back_ordered_by_created_at() {
    let (_tmp, mut db) = open_temp();
    let s = db.create_session("T", "m", "p", 700, 1).unwrap();
    db.create_message(&s.id, "user", "later", None, 50).unwrap();
    db.create_message(&s.id, "user", "earliest", None, 10).unwrap();
    db.create_message(&s.id, "user", "middle", None, 30).unwrap();

    let messages = db.get_messages(&s.id).unwrap();
    let contents: Vec<&str> = messages.iter().map(|m| m.content.as_str()).collect();
    assert_eq!(contents, vec!["earliest", "middle", "later"]);
    assert!(messages.windows(2).all(|w| w[0].created_at <= w[1].created_at));
}

#[test]
fn sessions_come_back_most_recently_updated_first() {
    let (_tmp, mut db) = open_temp();
    let a = db.create_session("A", "m", "p", 700, 10).unwrap();
    let b = db.create_session("B", "m", "p", 700, 20).unwrap();
    let c = db.create_session("C", "m", "p", 700, 15).unwrap();
    db.create_message(&a.id, "user", "bump", None, 30).unwrap();

    let sessions = db.get_all_sessions().unwrap();
    let titles: Vec<&str> = sessions.iter().map(|s| s.title.as_str()).collect();
    assert_eq!(titles, vec!["A", "B", "C"]);
    let _ = (b, c);
}

#[test]
fn create_message_fails_on_missing_session() {
    let (_tmp, mut db) = open_temp();
    let s = db.create_session("T", "m", "p", 700, 1).unwrap();
    let r = db.create_message("no-such-session", "user", "hi", None, 5);
    assert!(r.is_err());
    let err = r.unwrap_err();
    assert!(!err.message.is_empty());
    assert!(db.get_messages("no-such-session").unwrap().is_empty());
    assert_eq!(db.get_session(&s.id).unwrap().unwrap().updated_at, 1);
    assert_eq!(db.get_all_sessions().unwrap().len(), 1);
}

#[test]
fn delete_messages_keeps_the_session() {
    let (_tmp, mut db) = open_temp();
    let s = db.create_session("T", "m", "p", 700, 1).unwrap();
    db.create_message(&s.id, "user", "a", None, 2).unwrap();
    db.create_message(&s.id, "user", "b", None, 3).unwrap();

    db.delete_messages(&s.id).unwrap();

    assert!(db.get_messages(&s.id).unwrap().is_empty());
    assert!(db.get_session(&s.id).unwrap().is_some());
}

#[test]
fn updates_change_fields_and_refresh_updated_at() {
    let (_tmp, mut db) = open_temp();
    let s = db.create_session("Old title", "old-model", "old prompt", 700, 100).unwrap();

    db.update_session_title(&s.id, "New title", 101).unwrap();
    let t = db.get_session(&s.id).unwrap().unwrap();
    assert_eq!(t.title, "New title");
    assert_eq!(t.updated_at, 101);

    db.update_session_model(&s.id, "new-model", 102).unwrap();
    let m = db.get_session(&s.id).unwrap().unwrap();
    assert_eq!(m.model, "new-model");
    assert_eq!(m.updated_at, 102);

    db.update_session_params(&s.id, "new prompt", 950, 103).unwrap();
    let p = db.get_session(&s.id).unwrap().unwrap();
    assert_eq!(p.system_prompt, "new prompt");
    assert_eq!(p.temperature_milli, 950);
    assert_eq!(p.updated_at, 103);
    assert_eq!(p.created_at, 100);

    db.update_session_title("absent-id", "X", 104).unwrap();
    let unchanged = db.get_session(&s.id).unwrap().unwrap();
    assert_eq!(unchanged.title, "New title");
}

#[test]
fn get_session_on_absent_id_is_none_not_an_error() {
    let (_tmp, db) = open_temp();
    assert!(db.get_session("missing").unwrap().is_none());
}

#[test]
fn opening_an_old_schema_store_adds_columns_with_defaults() {
    let tmp = NamedTempFile::new().unwrap();
    let path = tmp.path().to_str().unwrap().to_string();
    {
        let conn = rusqlite::Connection::open(&path).unwrap();
        conn.execute(
            "CREATE TABLE chat_sessions (id TEXT PRIMARY KEY, title TEXT NOT NULL, model TEXT NOT NULL, created_at INTEGER NOT NULL, updated_at INTEGER NOT NULL)",
            (),
        )
        .unwrap();
        conn.execute(
            "INSERT INTO chat_sessions (id, title, model, created_at, updated_at) VALUES ('legacy', 'Kept', 'old-model', 10, 20)",
            (),
        )
        .unwrap();
    }

    let db = Database::new(&path).unwrap();
    let s = db.get_session("legacy").unwrap().unwrap();
    assert_eq!(s.title, "Kept");
    assert_eq!(s.model, "old-model");
    assert_eq!(s.created_at, 10);
    assert_eq!(s.updated_at, 20);
    assert_eq!(s.system_prompt, "You are a helpful assistant.");
    assert_eq!(s.temperature_milli, 700);
    drop(db);

    let db2 = Database::new(&path).unwrap();
    let s2 = db2.get_session("legacy").unwrap().unwrap();
    assert_eq!(s2.title, "Kept");
    assert_eq!(s2.system_prompt, "You are a helpful assistant.");
    assert_eq!(s2.temperature_milli, 700);
    assert_eq!(db2.get_all_sessions().unwrap().len(), 1);
}

#[test]
fn temperature_survives_the_fraction_round_trip() {
    let (_tmp, mut db) = open_temp();
    for milli in [0u32, 1, 700, 750, 999, 1000, 1999, 4321] {
        let s = db.create_session("T", "m", "p", milli, 1).unwrap();
        let back = db.get_session(&s.id).unwrap().unwrap();
        assert_eq!(back.temperature_milli, milli);
    }
}

#[test]
fn opening_a_store_with_a_misshapen_sessions_table_fails() {
    let tmp = NamedTempFile::new().unwrap();
    let path = tmp.path().to_str().unwrap().to_string();
    {
        let conn = rusqlite::Connection::open(&path).unwrap();
        conn.execute(
            "CREATE TABLE chat_sessions (id TEXT PRIMARY KEY, created_at INTEGER NOT NULL, updated_at INTEGER NOT NULL)",
            (),
        )
        .unwrap();
    }
    match Database::new(&path) {
        Err(e) => assert!(e.message.contains("sessions table")),
        Ok(_) => panic!("expected the open to fail"),
    }
}

#[test]
fn opening_a_store_without_the_cascade_declaration_fails() {
    let tmp = NamedTempFile::new().unwrap();
    let path = tmp.path().to_str().unwrap().to_string();
    {
        let conn = rusqlite::Connection::open(&path).unwrap();
        conn.execute(
            "CREATE TABLE chat_sessions (id TEXT PRIMARY KEY, title TEXT NOT NULL, model TEXT NOT NULL, system_prompt TEXT NOT NULL DEFAULT 'You are a helpful assistant.', temperature REAL NOT NULL DEFAULT 0.7, created_at INTEGER NOT NULL, updated_at INTEGER NOT NULL)",
            (),
        )
        .unwrap();
        conn.execute(
            "CREATE TABLE chat_messages (id TEXT PRIMARY KEY, session_id TEXT NOT NULL, role TEXT NOT NULL, content TEXT NOT NULL, created_at INTEGER NOT NULL, tokens INTEGER)",
            (),
        )
        .unwrap();
    }
    match Database::new(&path) {
        Err(e) => assert!(e.message.contains("foreign key")),
        Ok(_) => panic!("expected the open to fail"),
    }
}

#[test]
fn opening_a_store_with_an_orphan_message_fails() {
    let tmp = NamedTempFile::new().unwrap();
    let path = tmp.path().to_str().unwrap().to_string();
    {
        // With enforcement switched off, a parent row can be removed out
        // from under its message.
        let conn = rusqlite::Connection::open(&path).unwrap();
        conn.pragma_update(None, "foreign_keys", false).unwrap();
        conn.execute(
            "CREATE TABLE chat_sessions (id TEXT PRIMARY KEY, title TEXT NOT NULL, model TEXT NOT NULL, system_prompt TEXT NOT NULL DEFAULT 'You are a helpful assistant.', temperature REAL NOT NULL DEFAULT 0.7, created_at INTEGER NOT NULL, updated_at INTEGER NOT NULL)",
            (),
        )
        .unwrap();
        conn.execute(
            "CREATE TABLE chat_messages (id TEXT PRIMARY KEY, session_id TEXT NOT NULL, role TEXT NOT NULL, content TEXT NOT NULL, created_at INTEGER NOT NULL, tokens INTEGER, FOREIGN KEY (session_id) REFERENCES chat_sessions(id) ON DELETE CASCADE)",
            (),
        )
        .unwrap();
        conn.execute(
            "INSERT INTO chat_sessions (id, title, model, created_at, updated_at) VALUES ('s', 'T', 'm', 1, 1)",
            (),
        )
        .unwrap();
        conn.execute(
            "INSERT INTO chat_messages (id, session_id, role, content, created_at) VALUES ('m', 's', 'user', 'hi', 2)",
            (),
        )
        .unwrap();
        conn.execute("DELETE FROM chat_sessions WHERE id = 's'", ()).unwrap();
    }
    match Database::new(&path) {
        Err(e) => assert!(e.message.contains("missing session")),
        Ok(_) => panic!("expected the open to fail"),
    }
}

#[test]
fn deleting_an_absent_session_changes_nothing() {
    let (_tmp, mut db) = open_temp();
    let s = db.create_session("Kept", "m", "p", 700, 1).unwrap();
    db.create_message(&s.id, "user", "a", None, 2).unwrap();

    db.delete_session("no-such-id").unwrap();

    assert!(db.get_session(&s.id).unwrap().is_some());
    assert_eq!(db.get_messages(&s.id).unwrap().len(), 1);
    assert_eq!(db.get_all_sessions().unwrap().len(), 1);
}
