use user_store::db::{Defaults, GetId, Query, Reply};
use user_store::model::db::Db;
use user_store::user::Timestamp;

fn defaults(pub_id: u128, seconds: i64) -> Defaults {
    Defaults { pub_id, registered: Timestamp { seconds, nanos: 500 } }
}

fn insert_of(name: &str, email: &str) -> Query {
    Query::Insert { name: name.to_string(), email: email.to_string() }
}

#[test]
fn get_id_names_one_of_the_two() {
    assert_eq!(GetId::Id(7).get(), (Some(7), None));
    assert_eq!(GetId::PubId(9).get(), (None, Some(9)));
    assert_eq!(GetId::Id(0).get(), (Some(0), None));
    assert_eq!(GetId::PubId(u128::MAX).get(), (None, Some(u128::MAX)));
}

#[test]
fn each_statement_has_its_own_text() {
    let texts = [
        insert_of("a", "b").sql(),
        Query::Select(GetId::Id(1)).sql(),
        Query::Select(GetId::PubId(1)).sql(),
        Query::Update { id: 1, name: String::new(), email: String::new() }.sql(),
        Query::Disable(GetId::Id(1)).sql(),
        Query::Disable(GetId::PubId(1)).sql(),
        Query::Remove(GetId::Id(1)).sql(),
        Query::Remove(GetId::PubId(1)).sql(),
    ];
    for (i, a) in texts.iter().enumerate() {
        for b in &texts[i + 1..] {
            assert_ne!(a, b);
        }
    }
    assert_eq!(
        texts[0],
        "INSERT INTO users (name, email) VALUES ($1, $2) RETURNING id, pub_id, registered"
    );
    assert_eq!(
        texts[1],
        "SELECT id, pub_id, registered, name, email FROM users WHERE enabled AND id = $1"
    );
    assert_eq!(
        texts[2],
        "SELECT id, pub_id, registered, name, email FROM users WHERE enabled AND pub_id = $1"
    );
    assert_eq!(texts[3], "UPDATE users SET name = $1, email = $2 WHERE enabled AND id = $3");
    assert_eq!(texts[4], "UPDATE users SET enabled = FALSE WHERE id = $1");
    assert_eq!(texts[5], "UPDATE users SET enabled = FALSE WHERE pub_id = $1");
    assert_eq!(texts[6], "DELETE FROM users WHERE id = $1");
    assert_eq!(texts[7], "DELETE FROM users WHERE pub_id = $1");
}

#[test]
fn a_select_never_reads_both_columns() {
    assert!(!Query::Select(GetId::Id(1)).sql().contains("pub_id = "));
    assert!(!Query::Select(GetId::PubId(1)).sql().contains(" id = "));
    assert!(!Query::Select(GetId::Id(1)).sql().contains("NULL"));
    assert!(!Query::Select(GetId::PubId(1)).sql().contains("NULL"));
}

#[test]
fn a_new_table_is_empty() {
    let db = Db::new();
    assert_eq!(db.len(), 0);
    assert!(db.stored(GetId::Id(1)).is_none());
    assert!(matches!(db.select(GetId::Id(1)), Reply::Selected(None)));
}

#[test]
fn insert_assigns_key_identifier_and_time() {
    let mut db = Db::new();
    let reply = db.execute(&insert_of("Ivan", "ivan@mail.ru"), defaults(11, 100));
    match reply {
        Reply::Inserted { id, pub_id, registered } => {
            assert_eq!(id, 1);
            assert_eq!(pub_id, 11);
            assert_eq!(registered, Timestamp { seconds: 100, nanos: 500 });
        }
        other => panic!("{:?}", other),
    }
    let reply = db.execute(&insert_of("Anna", "anna@mail.ru"), defaults(12, 101));
    assert!(matches!(reply, Reply::Inserted { id: 2, pub_id: 12, .. }));
    assert_eq!(db.len(), 2);
    let record = db.stored(GetId::Id(2)).unwrap();
    assert_eq!(record.id, 2);
    assert_eq!(record.pub_id, 12);
    assert!(record.enabled);
    assert_eq!(record.name, "Anna");
    assert_eq!(record.email, "anna@mail.ru");
    assert_eq!(record.registered, Timestamp { seconds: 101, nanos: 500 });
}

#[test]
fn insert_refuses_what_the_schema_refuses() {
    let mut db = Db::new();
    let long = "x".repeat(101);
    assert!(matches!(db.execute(&insert_of(&long, "e"), defaults(1, 0)), Reply::Failed));
    assert!(matches!(db.execute(&insert_of("n", &long), defaults(1, 0)), Reply::Failed));
    assert_eq!(db.len(), 0);
    let edge = "x".repeat(100);
    assert!(matches!(db.execute(&insert_of(&edge, &edge), defaults(1, 0)), Reply::Inserted { .. }));
    assert_eq!(db.len(), 1);
}

#[test]
fn insert_refuses_an_identifier_in_use() {
    let mut db = Db::new();
    assert!(matches!(db.execute(&insert_of("a", "a"), defaults(5, 0)), Reply::Inserted { .. }));
    assert!(matches!(db.execute(&insert_of("b", "b"), defaults(5, 1)), Reply::Failed));
    assert_eq!(db.len(), 1);
    // the key that was not given out is given out next
    assert!(matches!(db.execute(&insert_of("b", "b"), defaults(6, 1)), Reply::Inserted { id: 2, .. }));
}

#[test]
fn keys_are_never_used_again() {
    let mut db = Db::new();
    db.execute(&insert_of("a", "a"), defaults(1, 0));
    db.execute(&insert_of("b", "b"), defaults(2, 0));
    assert!(matches!(db.execute(&Query::Remove(GetId::Id(2)), defaults(0, 0)), Reply::Affected(1)));
    assert!(matches!(db.execute(&insert_of("c", "c"), defaults(2, 0)), Reply::Inserted { id: 3, .. }));
    assert_eq!(db.len(), 2);
    assert!(db.stored(GetId::Id(2)).is_none());
}

#[test]
fn select_shows_enabled_records_only() {
    let mut db = Db::new();
    db.execute(&insert_of("a", "a@x"), defaults(21, 7));
    match db.select(GetId::PubId(21)) {
        Reply::Selected(Some(row)) => {
            assert_eq!(row.id, 1);
            assert_eq!(row.pub_id, 21);
            assert_eq!(row.name, "a");
            assert_eq!(row.email, "a@x");
            assert_eq!(row.registered, Timestamp { seconds: 7, nanos: 500 });
        }
        other => panic!("{:?}", other),
    }
    assert!(matches!(db.select(GetId::Id(1)), Reply::Selected(Some(_))));
    assert!(matches!(db.execute(&Query::Select(GetId::Id(1)), defaults(0, 0)), Reply::Selected(Some(_))));
    assert!(matches!(db.select(GetId::Id(2)), Reply::Selected(None)));
    assert!(matches!(db.select(GetId::PubId(1)), Reply::Selected(None)));
    assert!(matches!(db.select(GetId::Id(u32::MAX)), Reply::Selected(None)));
    db.execute(&Query::Disable(GetId::Id(1)), defaults(0, 0));
    assert!(matches!(db.select(GetId::Id(1)), Reply::Selected(None)));
    assert!(matches!(db.select(GetId::PubId(21)), Reply::Selected(None)));
    assert!(db.stored(GetId::PubId(21)).is_some());
}

#[test]
fn update_writes_name_and_email_only() {
    let mut db = Db::new();
    db.execute(&insert_of("a", "a@x"), defaults(21, 7));
    db.execute(&insert_of("b", "b@x"), defaults(22, 8));
    let query = Query::Update { id: 1, name: "A".to_string(), email: "A@x".to_string() };
    assert!(matches!(db.execute(&query, defaults(99, 99)), Reply::Affected(1)));
    let first = db.stored(GetId::Id(1)).unwrap();
    assert_eq!((first.name.as_str(), first.email.as_str()), ("A", "A@x"));
    assert_eq!(first.pub_id, 21);
    assert_eq!(first.registered, Timestamp { seconds: 7, nanos: 500 });
    assert!(first.enabled);
    let second = db.stored(GetId::Id(2)).unwrap();
    assert_eq!((second.name.as_str(), second.email.as_str()), ("b", "b@x"));
    assert_eq!(db.len(), 2);
}

#[test]
fn update_reaches_no_record_that_is_absent_or_disabled() {
    let mut db = Db::new();
    db.execute(&insert_of("a", "a@x"), defaults(21, 7));
    let query = Query::Update { id: 2, name: "A".to_string(), email: "A@x".to_string() };
    assert!(matches!(db.execute(&query, defaults(0, 0)), Reply::Affected(0)));
    db.execute(&Query::Disable(GetId::Id(1)), defaults(0, 0));
    let query = Query::Update { id: 1, name: "A".to_string(), email: "A@x".to_string() };
    assert!(matches!(db.execute(&query, defaults(0, 0)), Reply::Affected(0)));
    assert_eq!(db.stored(GetId::Id(1)).unwrap().name, "a");
}

#[test]
fn update_refuses_what_the_schema_refuses() {
    let mut db = Db::new();
    db.execute(&insert_of("a", "a@x"), defaults(21, 7));
    let query = Query::Update { id: 1, name: "x".repeat(101), email: "A@x".to_string() };
    assert!(matches!(db.execute(&query, defaults(0, 0)), Reply::Failed));
    assert_eq!(db.stored(GetId::Id(1)).unwrap().name, "a");
    // a statement that reaches no record breaks no constraint
    let query = Query::Update { id: 5, name: "x".repeat(101), email: "A@x".to_string() };
    assert!(matches!(db.execute(&query, defaults(0, 0)), Reply::Affected(0)));
}

#[test]
fn disable_keeps_the_record() {
    let mut db = Db::new();
    db.execute(&insert_of("a", "a@x"), defaults(21, 7));
    assert!(matches!(db.execute(&Query::Disable(GetId::PubId(21)), defaults(0, 0)), Reply::Affected(1)));
    assert!(matches!(db.execute(&Query::Disable(GetId::PubId(21)), defaults(0, 0)), Reply::Affected(1)));
    assert!(matches!(db.execute(&Query::Disable(GetId::PubId(20)), defaults(0, 0)), Reply::Affected(0)));
    assert_eq!(db.len(), 1);
    let record = db.stored(GetId::Id(1)).unwrap();
    assert!(!record.enabled);
    assert_eq!(record.name, "a");
}

#[test]
fn remove_takes_the_record_away() {
    let mut db = Db::new();
    db.execute(&insert_of("a", "a@x"), defaults(21, 7));
    db.execute(&insert_of("b", "b@x"), defaults(22, 7));
    db.execute(&insert_of("c", "c@x"), defaults(23, 7));
    assert!(matches!(db.execute(&Query::Remove(GetId::PubId(22)), defaults(0, 0)), Reply::Affected(1)));
    assert!(matches!(db.execute(&Query::Remove(GetId::PubId(22)), defaults(0, 0)), Reply::Affected(0)));
    assert_eq!(db.len(), 2);
    assert!(db.stored(GetId::Id(2)).is_none());
    assert_eq!(db.stored(GetId::Id(1)).unwrap().name, "a");
    assert_eq!(db.stored(GetId::Id(3)).unwrap().name, "c");
}
