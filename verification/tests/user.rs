use user_store::user::{Saved, Timestamp, User, MAX_LEN};

fn at(seconds: i64) -> Timestamp {
    Timestamp { seconds, nanos: 0 }
}

#[test]
fn new_keeps_name_and_email() {
    let user = User::new("Ivan".to_string(), "ivan@mail.ru".to_string()).unwrap();
    assert_eq!(user.name(), "Ivan");
    assert_eq!(user.email(), "ivan@mail.ru");
    assert!(!user.is_saved());
}

#[test]
fn new_accepts_a_hundred_characters() {
    assert_eq!(MAX_LEN, 100);
    assert!(User::new("n".repeat(100), "e".repeat(100)).is_some());
    assert!(User::new(String::new(), String::new()).is_some());
}

#[test]
fn new_refuses_a_long_name() {
    assert!(User::new("n".repeat(101), "e".to_string()).is_none());
    assert!(User::new("n".repeat(1000), String::new()).is_none());
}

#[test]
fn new_refuses_a_long_email() {
    assert!(User::new("n".to_string(), "e".repeat(101)).is_none());
    assert!(User::new("n".repeat(100), "e".repeat(101)).is_none());
    assert!(User::new("n".repeat(101), "e".repeat(101)).is_none());
}

#[test]
fn new_counts_characters() {
    assert!(User::new("\u{e9}".repeat(100), "\u{44f}".repeat(100)).is_some());
    assert!(User::new("\u{e9}".repeat(101), String::new()).is_none());
    assert!(User::new(String::new(), "\u{44f}".repeat(101)).is_none());
}

#[test]
fn saved_attaches_what_the_store_assigned() {
    let user = User::new("Ivan".to_string(), "ivan@mail.ru".to_string()).unwrap();
    let saved = user.clone().saved((7, 0x123e4567e89b12d3a456426614174000), at(1_700_000_000));
    assert!(saved.is_saved());
    assert_eq!(saved.id(), 7);
    assert_eq!(saved.pub_id(), 0x123e4567e89b12d3a456426614174000);
    assert_eq!(saved.registered(), at(1_700_000_000));
    assert_eq!(saved.name(), "Ivan");
    assert_eq!(saved.email(), "ivan@mail.ru");
    // the transient value is as it was
    assert!(!user.is_saved());
    assert_eq!(user.name(), "Ivan");
}

#[test]
fn clone_is_the_same_user() {
    let user = User::new("Ivan".to_string(), "ivan@mail.ru".to_string())
        .unwrap()
        .saved((1, 2), Timestamp { seconds: 3, nanos: 4 });
    let copy = user.clone();
    assert_eq!(copy.id(), 1);
    assert_eq!(copy.pub_id(), 2);
    assert_eq!(copy.registered(), Timestamp { seconds: 3, nanos: 4 });
    assert_eq!(copy.name(), user.name());
    assert_eq!(copy.email(), user.email());
}

#[test]
fn assigned_tells_the_two_states_apart() {
    let user = User::new("Ivan".to_string(), "ivan@mail.ru".to_string()).unwrap();
    assert_eq!(user.assigned(), None);
    let saved = user.saved((7, 8), at(9));
    assert_eq!(saved.assigned(), Some(Saved { id: 7, pub_id: 8, registered: at(9) }));
}

#[test]
fn saved_again_replaces_what_was_assigned() {
    let user = User::new("Ivan".to_string(), "ivan@mail.ru".to_string()).unwrap();
    let saved = user.saved((7, 8), at(9)).saved((10, 11), at(12));
    assert_eq!(saved.assigned(), Some(Saved { id: 10, pub_id: 11, registered: at(12) }));
    assert_eq!(saved.name(), "Ivan");
}
