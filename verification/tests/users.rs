use chronicle::db::users::{get, list_all, set_admin, upsert, Registered, UpsertUser, User};
use chronicle::error::AppError;
use chronicle::ids::{PseudoId, Timestamp};

fn at(micros: i64) -> Timestamp {
    Timestamp { micros }
}

fn pid(text: &str) -> PseudoId {
    PseudoId { text: text.to_string() }
}

fn input(text: &str) -> UpsertUser {
    UpsertUser { pseudo_id: pid(text) }
}

fn fresh(created: i64) -> Registered {
    Registered { is_admin: false, data_wiped_at: None, created_at: at(created) }
}

fn user(text: &str, is_admin: bool, created: i64) -> User {
    User { pseudo_id: pid(text), is_admin, data_wiped_at: None, created_at: at(created) }
}

#[test]
fn upsert_adds_once_and_returns_the_row() {
    let mut users = vec![];
    assert_eq!(upsert(&mut users, &input("a"), fresh(1)), user("a", false, 1));
    assert_eq!(upsert(&mut users, &input("b"), fresh(2)), user("b", false, 2));
    assert_eq!(upsert(&mut users, &input("a"), fresh(3)), user("a", false, 1));
    assert_eq!(users, vec![user("a", false, 1), user("b", false, 2)]);
}

#[test]
fn upsert_keeps_admin_rights() {
    let mut users = vec![user("a", true, 1)];
    assert_eq!(upsert(&mut users, &input("a"), fresh(9)), user("a", true, 1));
    assert_eq!(users, vec![user("a", true, 1)]);
}

#[test]
fn unknown_user_is_not_found() {
    let users = vec![user("a", false, 1)];
    assert_eq!(get(&users, &pid("a")), Ok(user("a", false, 1)));
    assert_eq!(get(&users, &pid("b")), Err(AppError::NotFound("user b not found".to_string())));
}

#[test]
fn upserted_user_is_found() {
    let mut users = vec![];
    upsert(&mut users, &input("a"), fresh(4));
    assert_eq!(get(&users, &pid("a")), Ok(user("a", false, 4)));
}

#[test]
fn admin_flag_is_read_back_and_alone_changed() {
    let mut users = vec![user("a", false, 1), user("b", false, 2)];
    users[0].data_wiped_at = Some(at(50));
    let row = set_admin(&mut users, &pid("a"), true, fresh(9));
    assert!(row.is_admin);
    assert_eq!(row.created_at, at(1));
    assert_eq!(row.data_wiped_at, Some(at(50)));
    assert_eq!(get(&users, &pid("a")), Ok(row));
    assert_eq!(users[1], user("b", false, 2));
    set_admin(&mut users, &pid("a"), false, fresh(9));
    assert!(!get(&users, &pid("a")).unwrap().is_admin);
    assert_eq!(users.len(), 2);
}

#[test]
fn admin_flag_of_an_unknown_user_adds_the_user() {
    let mut users = vec![user("a", false, 1)];
    let row = set_admin(&mut users, &pid("b"), true, fresh(9));
    assert_eq!(row, user("b", true, 9));
    assert_eq!(users, vec![user("a", false, 1), user("b", true, 9)]);
}

#[test]
fn users_are_listed_newest_first() {
    let users = vec![user("a", false, 2), user("b", true, 5), user("c", false, 1)];
    assert_eq!(
        list_all(&users),
        vec![user("b", true, 5), user("a", false, 2), user("c", false, 1)]
    );
    assert_eq!(list_all(&vec![]), vec![]);
}
