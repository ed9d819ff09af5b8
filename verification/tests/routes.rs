use user_store::config::Config;
use user_store::db::{Defaults, GetId, Query, Reply, Row};
use user_store::model::db::Db;
use user_store::model::user::Model;
use user_store::model::{Error, Identifier};
use user_store::routes::{
    find, find_request, find_response, insert, insert_request, insert_response, report, status,
};
use user_store::user::{Timestamp, User};

const NOW: Timestamp = Timestamp { seconds: 1_700_000_000, nanos: 0 };

#[test]
fn report_is_token_colon_space_name() {
    let user = User::new("Ivan".to_string(), "ivan@mail.ru".to_string())
        .unwrap()
        .saved((1, 0x000102030405060708090a0b0c0d0e0f), NOW);
    assert_eq!(report(&user), "AAECAwQFBgcICQoLDA0ODw: Ivan");
}

#[test]
fn status_hides_why_a_request_failed() {
    assert_eq!(status(Error::NotFound), 404);
    assert_eq!(status(Error::Validation), 404);
    assert_eq!(status(Error::Storage), 500);
}

#[test]
fn find_request_decodes_the_token() {
    match find_request("AAECAwQFBgcICQoLDA0ODw") {
        Ok(Query::Select(GetId::PubId(id))) => assert_eq!(id, 0x000102030405060708090a0b0c0d0e0f),
        other => panic!("{:?}", other),
    }
}

#[test]
fn find_request_refuses_what_is_no_token() {
    assert_eq!(find_request("short").err(), Some(Error::NotFound));
    assert_eq!(find_request("!!!!!!!!!!!!!!!!!!!!!!").err(), Some(Error::NotFound));
    assert_eq!(find_request("").err(), Some(Error::NotFound));
}

#[test]
fn find_response_encodes_the_identifier_again() {
    let row = Row {
        id: 4,
        pub_id: u128::MAX,
        registered: NOW,
        name: "Anna".to_string(),
        email: "anna@mail.ru".to_string(),
    };
    assert_eq!(
        find_response(Reply::Selected(Some(row))),
        Ok("_____________________w: Anna".to_string())
    );
    assert_eq!(find_response(Reply::Selected(None)), Err(Error::NotFound));
    assert_eq!(find_response(Reply::Failed), Err(Error::Storage));
}

#[test]
fn insert_request_validates() {
    assert!(insert_request("n".repeat(100), "e".repeat(100)).is_ok());
    assert_eq!(insert_request("n".repeat(101), "e".to_string()).err(), Some(Error::Validation));
    assert_eq!(insert_request("n".to_string(), "e".repeat(101)).err(), Some(Error::Validation));
}

#[test]
fn insert_response_shows_the_new_record() {
    let user = insert_request("Ivan".to_string(), "ivan@mail.ru".to_string()).unwrap();
    let reply = Reply::Inserted { id: 1, pub_id: 1, registered: NOW };
    assert_eq!(insert_response(user, reply), Ok("AAAAAAAAAAAAAAAAAAAAAQ: Ivan".to_string()));
    let user = insert_request("Ivan".to_string(), "ivan@mail.ru".to_string()).unwrap();
    assert_eq!(insert_response(user, Reply::Failed), Err(Error::Storage));
}

#[test]
fn insert_then_find_through_the_routes() {
    let mut model = Model::new(Db::new());
    let defaults = Defaults { pub_id: 0x123e4567e89b12d3a456426614174000, registered: NOW };
    let line = insert(&mut model, "Ivan".to_string(), "ivan@mail.ru".to_string(), defaults).unwrap();
    assert_eq!(line, "Ej5FZ-ibEtOkVkJmFBdAAA: Ivan");
    assert_eq!(find(&model, "Ej5FZ-ibEtOkVkJmFBdAAA"), Ok("Ej5FZ-ibEtOkVkJmFBdAAA: Ivan".to_string()));
    assert_eq!(find(&model, "AAAAAAAAAAAAAAAAAAAAAA"), Err(Error::NotFound));
    assert_eq!(find(&model, "short"), Err(Error::NotFound));
    assert_eq!(find(&model, "!!!!!!!!!!!!!!!!!!!!!!"), Err(Error::NotFound));
}

#[test]
fn insert_of_a_long_name_writes_no_row() {
    let mut model = Model::new(Db::new());
    let defaults = Defaults { pub_id: 5, registered: NOW };
    assert_eq!(
        insert(&mut model, "n".repeat(101), "ivan@mail.ru".to_string(), defaults),
        Err(Error::Validation)
    );
    assert_eq!(model.db().len(), 0);
    assert_eq!(
        insert(&mut model, "Ivan".to_string(), "e".repeat(101), defaults),
        Err(Error::Validation)
    );
    assert_eq!(model.db().len(), 0);
    assert!(insert(&mut model, "n".repeat(100), "e".repeat(100), defaults).is_ok());
    assert_eq!(model.db().len(), 1);
}

#[test]
fn find_does_not_show_a_deleted_user() {
    let mut model = Model::new(Db::new());
    let defaults = Defaults { pub_id: 1, registered: NOW };
    insert(&mut model, "Ivan".to_string(), "ivan@mail.ru".to_string(), defaults).unwrap();
    assert!(find(&model, "AAAAAAAAAAAAAAAAAAAAAQ").is_ok());
    model.delete(Identifier::PubId(1), false).unwrap();
    assert_eq!(find(&model, "AAAAAAAAAAAAAAAAAAAAAQ"), Err(Error::NotFound));
}

fn config(port: u16) -> Config {
    Config {
        user: "admin".to_string(),
        pass: "pw".to_string(),
        host: "localhost".to_string(),
        port,
        database: "users".to_string(),
    }
}

#[test]
fn url_names_the_store() {
    assert_eq!(config(5432).url(), "postgresql://admin:pw@localhost:5432/users");
}

#[test]
fn url_has_the_port_in_decimal_without_leading_zeros() {
    assert_eq!(config(0).url(), "postgresql://admin:pw@localhost:0/users");
    assert_eq!(config(7).url(), "postgresql://admin:pw@localhost:7/users");
    assert_eq!(config(10).url(), "postgresql://admin:pw@localhost:10/users");
    assert_eq!(config(60009).url(), "postgresql://admin:pw@localhost:60009/users");
    assert_eq!(config(u16::MAX).url(), "postgresql://admin:pw@localhost:65535/users");
}

#[test]
fn url_takes_the_parts_as_they_are() {
    let config = Config {
        user: String::new(),
        pass: "p:w@/".to_string(),
        host: "db.example".to_string(),
        port: 1,
        database: String::new(),
    };
    assert_eq!(config.url(), "postgresql://:p:w@/@db.example:1/");
}
