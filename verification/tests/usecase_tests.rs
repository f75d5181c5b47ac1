use osphor::errors::AppError;
use osphor::player::Account;
use osphor::player::Player;
use osphor::schema::load_data;
use osphor::store::Store;
use serde_json::Value;

fn fresh_store() -> Store {
    let backend = redb::backends::InMemoryBackend::new();
    let db = redb::Database::builder().create_with_backend(backend).unwrap();
    Store::new(db).unwrap()
}

fn default_rank() -> Value {
    serde_json::to_value(skillratings::weng_lin::WengLinRating::new()).unwrap()
}

fn player(username: &str, data: Vec<(String, Value)>) -> Player {
    Player { username: username.to_string(), rank: default_rank(), data }
}

#[test]
fn player_normalize_keeps_identity_and_rank() {
    let catalog = vec![("level".to_string(), Value::from(1i64))];
    let p = Player {
        username: "dana".to_string(),
        rank: Value::from(3.5f64),
        data: vec![("stray".to_string(), Value::from(9i64))],
    };
    let n = Player::normalize(&p, &catalog);
    assert_eq!(n.username, "dana");
    assert_eq!(n.rank, Value::from(3.5f64));
    assert_eq!(n.data, vec![("level".to_string(), Value::from(1i64))]);
}

#[test]
fn scenario_register_applies_catalog_defaults() {
    let mut store = fresh_store();
    let catalog =
        load_data(r#"return { players = { { name = "level", type = "int", default = 1 } } }"#)
            .unwrap();
    let alice = player("alice", Vec::new());
    Player::register(&mut store, &catalog, &alice, "pw1").unwrap();

    let players = Player::bulk(&store).unwrap();
    assert_eq!(players.len(), 1);
    assert_eq!(players[0].username, "alice");
    assert_eq!(players[0].rank, default_rank());
    assert_eq!(players[0].data, vec![("level".to_string(), Value::from(1i64))]);

    // Registering the same username again is a conflict.
    let again = Player::register(&mut store, &catalog, &alice, "pw1");
    assert_eq!(again, Err(AppError::Conflict));
}

#[test]
fn register_drops_keys_outside_catalog() {
    let mut store = fresh_store();
    let catalog =
        load_data(r#"return { players = { { name = "level", type = "int", default = 1 } } }"#)
            .unwrap();
    let mallory = player(
        "mallory",
        vec![
            ("is_admin".to_string(), Value::from(true)),
            ("level".to_string(), Value::from(9i64)),
        ],
    );
    Player::register(&mut store, &catalog, &mallory, "pw").unwrap();
    let players = Player::bulk(&store).unwrap();
    assert_eq!(players[0].data, vec![("level".to_string(), Value::from(9i64))]);
}

#[test]
fn sequential_registrations_same_username_one_succeeds() {
    let mut store = fresh_store();
    let catalog: Vec<(String, Value)> = Vec::new();
    let first = Player::register(&mut store, &catalog, &player("alice", Vec::new()), "pw1");
    let second = Player::register(&mut store, &catalog, &player("alice", Vec::new()), "pw2");
    assert_eq!(first, Ok(()));
    assert_eq!(second, Err(AppError::Conflict));
    // The first registration's credentials still hold.
    assert!(Account::login(&store, "alice", "pw1").is_ok());
    assert_eq!(Account::login(&store, "alice", "pw2"), Err(AppError::Unauthorized));
}

#[test]
fn scenario_login_and_validate() {
    let mut store = fresh_store();
    let catalog: Vec<(String, Value)> = Vec::new();
    Player::register(&mut store, &catalog, &player("alice", Vec::new()), "pw1").unwrap();

    assert_eq!(Account::login(&store, "alice", "wrong"), Err(AppError::Unauthorized));
    assert_eq!(Account::login(&store, "nobody", "pw1"), Err(AppError::NotFound));

    let token = Account::login(&store, "alice", "pw1").unwrap();
    assert_eq!(Account::validate(&token), "sub: alice");
}

#[test]
fn bulk_lists_exactly_the_registered_players() {
    let mut store = fresh_store();
    let catalog: Vec<(String, Value)> = Vec::new();
    Player::register(&mut store, &catalog, &player("alice", Vec::new()), "pw1").unwrap();
    Player::register(&mut store, &catalog, &player("bob", Vec::new()), "pw2").unwrap();
    let players = Player::bulk(&store).unwrap();
    assert_eq!(players.len(), 2);
    let mut names: Vec<String> = players.iter().map(|p| p.username.clone()).collect();
    names.sort();
    assert_eq!(names, vec!["alice".to_string(), "bob".to_string()]);
}

#[test]
fn login_on_corrupted_stored_record_fails_fast() {
    let mut store = fresh_store();
    store.write_unique("eve", "this is not json", "also not json").unwrap();
    assert_eq!(Account::login(&store, "eve", "pw"), Err(AppError::Serialization));
    assert_eq!(Player::bulk(&store), Err(AppError::Serialization));
}

#[test]
fn login_on_corrupted_stored_hash_is_integrity_fault() {
    let mut store = fresh_store();
    store
        .write_unique(
            "eve",
            r#"{"username":"eve","password":"not-a-phc-hash"}"#,
            r#"{"username":"eve","rank":null,"data":{}}"#,
        )
        .unwrap();
    assert_eq!(Account::login(&store, "eve", "pw"), Err(AppError::CorruptHash));
}

#[test]
fn register_preserves_submitted_values_and_rank() {
    let mut store = fresh_store();
    let catalog = load_data(
        r#"return { players = {
            { name = "level", type = "int", default = 1 },
            { name = "motto", type = "string", default = "" },
        } }"#,
    )
    .unwrap();
    let bob = player("bob", vec![("motto".to_string(), Value::from("onward"))]);
    Player::register(&mut store, &catalog, &bob, "pw").unwrap();
    let players = Player::bulk(&store).unwrap();
    assert_eq!(
        players[0].data,
        vec![
            ("level".to_string(), Value::from(1i64)),
            ("motto".to_string(), Value::from("onward")),
        ]
    );
    assert_eq!(players[0].rank, default_rank());
}
