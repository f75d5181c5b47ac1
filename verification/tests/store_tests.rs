use osphor::errors::AppError;
use osphor::store::Store;
use osphor::store::TableKind;

fn fresh_store() -> Store {
    let backend = redb::backends::InMemoryBackend::new();
    let db = redb::Database::builder().create_with_backend(backend).unwrap();
    Store::new(db).unwrap()
}

#[test]
fn read_one_misses_on_fresh_store() {
    let store = fresh_store();
    assert_eq!(store.read_one(TableKind::Accounts, "alice"), Ok(None));
    assert_eq!(store.read_one(TableKind::Players, "alice"), Ok(None));
}

#[test]
fn write_unique_then_read_back() {
    let mut store = fresh_store();
    store.write_unique("alice", "acct-payload", "player-payload").unwrap();
    assert_eq!(
        store.read_one(TableKind::Accounts, "alice"),
        Ok(Some("acct-payload".to_string()))
    );
    assert_eq!(
        store.read_one(TableKind::Players, "alice"),
        Ok(Some("player-payload".to_string()))
    );
}

#[test]
fn write_unique_conflicts_on_existing_key() {
    let mut store = fresh_store();
    store.write_unique("alice", "a1", "p1").unwrap();
    assert_eq!(store.write_unique("alice", "a2", "p2"), Err(AppError::Conflict));
    // The conflicting attempt changed nothing.
    assert_eq!(store.read_one(TableKind::Accounts, "alice"), Ok(Some("a1".to_string())));
    assert_eq!(store.read_one(TableKind::Players, "alice"), Ok(Some("p1".to_string())));
}

#[test]
fn list_all_returns_every_entry_once() {
    let mut store = fresh_store();
    store.write_unique("alice", "a1", "p1").unwrap();
    store.write_unique("bob", "a2", "p2").unwrap();
    let mut entries = store.list_all(TableKind::Players).unwrap();
    entries.sort();
    assert_eq!(
        entries,
        vec![
            ("alice".to_string(), "p1".to_string()),
            ("bob".to_string(), "p2".to_string()),
        ]
    );
    assert!(store.list_all(TableKind::Accounts).unwrap().len() == 2);
}

#[test]
fn list_all_empty_table() {
    let store = fresh_store();
    assert_eq!(store.list_all(TableKind::Players), Ok(Vec::new()));
}
