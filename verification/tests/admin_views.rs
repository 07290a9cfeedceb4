use chronicle::db::display_names::DisplayName;
use chronicle::db::participants::Participant;
use chronicle::db::sessions::Session;
use chronicle::db::users::{list_all_with_details, list_sessions_for_user, User};
use chronicle::ids::{PseudoId, Timestamp, Uuid};

fn at(micros: i64) -> Timestamp {
    Timestamp { micros }
}

fn id(bits: u128) -> Uuid {
    Uuid { bits }
}

fn pid(text: &str) -> PseudoId {
    PseudoId { text: text.to_string() }
}

fn user(text: &str, created: i64) -> User {
    User { pseudo_id: pid(text), is_admin: false, data_wiped_at: None, created_at: at(created) }
}

fn name(who: &str, text: &str, seen: i64) -> DisplayName {
    DisplayName {
        pseudo_id: pid(who),
        display_name: text.to_string(),
        source: "voice".to_string(),
        seen_count: 1,
        last_seen_at: at(seen),
        body: String::new(),
    }
}

fn session(bits: u128, started: i64) -> Session {
    Session {
        id: id(bits),
        guild_id: 1,
        campaign_name: Some(format!("c{}", bits)),
        started_at: at(started),
        ended_at: None,
        status: "live".to_string(),
        body: String::new(),
    }
}

fn joined(bits: u128, session: u128, who: &str, scope: Option<&str>) -> Participant {
    Participant {
        id: id(bits),
        session_id: id(session),
        pseudo_id: pid(who),
        consent_scope: scope.map(|s| s.to_string()),
        data_wiped_at: None,
        body: String::new(),
    }
}

#[test]
fn users_are_listed_with_details() {
    let users = vec![user("idle", 90), user("early", 10), user("late", 20), user("newer_idle", 95)];
    let names = vec![
        name("late", "Old", 1),
        name("late", "New", 3),
        name("late", "Middle", 2),
        name("early", "E", 7),
    ];
    let sessions = vec![session(1, 100), session(2, 300), session(3, 200)];
    let participants = vec![
        joined(1, 1, "early", None),
        joined(2, 1, "late", None),
        joined(3, 2, "late", Some("full")),
        joined(4, 2, "late", None),
        joined(5, 77, "idle", Some("full")),
    ];
    let items = list_all_with_details(&users, &names, &participants, &sessions);
    let who: Vec<&str> = items.iter().map(|i| i.pseudo_id.as_str()).collect();
    assert_eq!(who, vec!["late", "early", "newer_idle", "idle"]);

    let late = &items[0];
    assert_eq!(late.latest_display_name, Some("New".to_string()));
    assert_eq!(late.session_count, 2);
    assert_eq!(late.last_active_at, Some(at(300)));
    assert!(late.has_consent_on_file);
    assert_eq!(late.created_at, at(20));

    let early = &items[1];
    assert_eq!(early.latest_display_name, Some("E".to_string()));
    assert_eq!(early.session_count, 1);
    assert_eq!(early.last_active_at, Some(at(100)));
    assert!(!early.has_consent_on_file);

    // A participation in a session that is not there does not count.
    let idle = &items[3];
    assert_eq!(idle.latest_display_name, None);
    assert_eq!(idle.session_count, 0);
    assert_eq!(idle.last_active_at, None);
    assert!(!idle.has_consent_on_file);
}

#[test]
fn equally_active_users_are_listed_newest_first() {
    let users = vec![user("a", 1), user("b", 2)];
    let sessions = vec![session(1, 5)];
    let participants = vec![joined(1, 1, "a", None), joined(2, 1, "b", None)];
    let items = list_all_with_details(&users, &vec![], &participants, &sessions);
    assert_eq!(items[0].pseudo_id, pid("b"));
    assert_eq!(items[1].pseudo_id, pid("a"));
}

#[test]
fn sessions_of_a_user_are_listed_latest_first() {
    let sessions = vec![session(1, 100), session(2, 300), session(3, 200)];
    let participants = vec![
        joined(1, 1, "a", None),
        joined(2, 2, "b", None),
        joined(3, 3, "a", Some("clips")),
        joined(4, 77, "a", None),
    ];
    let rows = list_sessions_for_user(&participants, &sessions, &pid("a"));
    assert_eq!(rows.len(), 2);
    assert_eq!(rows[0].session_id, id(3));
    assert_eq!(rows[0].campaign_name, Some("c3".to_string()));
    assert_eq!(rows[0].title, None);
    assert_eq!(rows[0].started_at, at(200));
    assert_eq!(rows[0].status, "live");
    assert_eq!(rows[0].consent_scope, Some("clips".to_string()));
    assert_eq!(rows[1].session_id, id(1));
    assert_eq!(rows[1].consent_scope, None);
    assert!(list_sessions_for_user(&participants, &sessions, &pid("c")).is_empty());
}
