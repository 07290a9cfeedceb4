use chronicle::db::audit_log::{Entry, Field, Scalar};
use chronicle::db::display_names::{DisplayName, UpsertDisplayName};
use chronicle::db::users::{UpsertUser, User};
use chronicle::error::AppError;
use chronicle::ids::{PseudoId, Timestamp};
use chronicle::routes::users::{
    fetch_user, list_admin_users, list_display, patch_user, post_display, upsert_user, Call,
    PatchUserRequest, Reply, Response,
};

fn pid() -> PseudoId {
    PseudoId { text: "who".to_string() }
}

fn user(is_admin: bool) -> User {
    User {
        pseudo_id: pid(),
        is_admin,
        data_wiped_at: None,
        created_at: Timestamp { micros: 1 },
    }
}

fn name(text: &str) -> DisplayName {
    DisplayName {
        pseudo_id: pid(),
        display_name: text.to_string(),
        source: "bot".to_string(),
        seen_count: 3,
        last_seen_at: Timestamp { micros: 2 },
        body: "{}".to_string(),
    }
}

fn seen() -> UpsertDisplayName {
    UpsertDisplayName { body: "{\"display_name\":\"N\"}".to_string() }
}

fn entry(resource_type: &str, resource_id: &str, action: &str, detail: Option<Vec<Field>>) -> Entry {
    Entry {
        actor_service: "svc".to_string(),
        actor_pseudo: Some("who".to_string()),
        session_id: None,
        resource_type: resource_type.to_string(),
        resource_id: resource_id.to_string(),
        action: action.to_string(),
        detail,
    }
}

fn field(name: &str, value: Scalar) -> Field {
    Field { name: name.to_string(), value }
}

fn parsing() -> Option<Call> {
    Some(Call::ParsePseudoId { raw: "raw".to_string() })
}

#[test]
fn upsert_takes_its_course() {
    let flow = upsert_user("svc".to_string(), UpsertUser { pseudo_id: pid() });
    assert_eq!(flow.pending(), Some(Call::UpsertUser { pseudo_id: pid() }));
    let flow = flow.advance(Reply::User(user(true)));
    assert_eq!(
        flow.pending(),
        Some(Call::AppendAudit {
            entry: entry("user", "who", "upserted", None),
            in_transaction: false,
        })
    );
    let flow = flow.advance(Reply::Done);
    assert_eq!(flow.into_response(), Some(Ok(Response::User(user(true)))));
}

#[test]
fn user_is_fetched_with_the_first_name() {
    let fetched = |names: Vec<DisplayName>| {
        let flow = fetch_user("raw".to_string());
        assert_eq!(flow.pending(), parsing());
        let flow = flow.advance(Reply::PseudoId(pid()));
        assert_eq!(flow.pending(), Some(Call::GetUser { pseudo_id: pid() }));
        let flow = flow.advance(Reply::User(user(false)));
        assert_eq!(flow.pending(), Some(Call::ListDisplayNames { pseudo_id: pid() }));
        flow.advance(Reply::DisplayNames(names)).into_response()
    };
    assert_eq!(
        fetched(vec![name("First"), name("Second")]),
        Some(Ok(Response::Profile {
            user: user(false),
            latest_display_name: Some("First".to_string()),
        }))
    );
    assert_eq!(
        fetched(vec![]),
        Some(Ok(Response::Profile { user: user(false), latest_display_name: None }))
    );
}

#[test]
fn name_is_noted_for_an_ensured_user() {
    let flow = post_display("raw".to_string(), "svc".to_string(), seen());
    assert_eq!(flow.pending(), parsing());
    let flow = flow.advance(Reply::PseudoId(pid()));
    assert_eq!(flow.pending(), Some(Call::UpsertUser { pseudo_id: pid() }));
    let flow = flow.advance(Reply::User(user(false)));
    assert_eq!(
        flow.pending(),
        Some(Call::UpsertDisplayName { pseudo_id: pid(), input: seen() })
    );
    let flow = flow.advance(Reply::DisplayName(name("N")));
    assert_eq!(
        flow.pending(),
        Some(Call::AppendAudit {
            entry: entry(
                "display_name",
                "who/N",
                "seen",
                Some(vec![
                    field("source", Scalar::Text("bot".to_string())),
                    field("seen_count", Scalar::Int(3)),
                ]),
            ),
            in_transaction: false,
        })
    );
    let flow = flow.advance(Reply::Done);
    assert_eq!(flow.into_response(), Some(Ok(Response::DisplayName(name("N")))));
}

#[test]
fn names_and_users_are_listed() {
    let flow = list_display("raw".to_string());
    assert_eq!(flow.pending(), parsing());
    let flow = flow.advance(Reply::PseudoId(pid()));
    assert_eq!(flow.pending(), Some(Call::ListDisplayNames { pseudo_id: pid() }));
    let flow = flow.advance(Reply::DisplayNames(vec![name("A"), name("B")]));
    assert_eq!(
        flow.into_response(),
        Some(Ok(Response::DisplayNames(vec![name("A"), name("B")])))
    );
    let flow = list_admin_users();
    assert_eq!(flow.pending(), Some(Call::ListUsers));
    let flow = flow.advance(Reply::Users(vec![user(true)]));
    assert_eq!(flow.into_response(), Some(Ok(Response::Users(vec![user(true)]))));
}

#[test]
fn admin_change_takes_its_course() {
    for (is_admin, action) in [(true, "admin_granted"), (false, "admin_revoked")] {
        let flow =
            patch_user("svc".to_string(), "raw".to_string(), PatchUserRequest { is_admin });
        assert_eq!(flow.pending(), parsing());
        let flow = flow.advance(Reply::PseudoId(pid()));
        assert_eq!(flow.pending(), Some(Call::Begin));
        let flow = flow.advance(Reply::Done);
        assert_eq!(flow.pending(), Some(Call::SetAdmin { pseudo_id: pid(), is_admin }));
        let flow = flow.advance(Reply::User(user(is_admin)));
        assert_eq!(
            flow.pending(),
            Some(Call::AppendAudit {
                entry: entry(
                    "user",
                    "who",
                    action,
                    Some(vec![field("is_admin", Scalar::Bool(is_admin))]),
                ),
                in_transaction: true,
            })
        );
        let flow = flow.advance(Reply::Done);
        assert_eq!(flow.pending(), Some(Call::Commit));
        let flow = flow.advance(Reply::Done);
        assert_eq!(flow.into_response(), Some(Ok(Response::User(user(is_admin)))));
    }
}

#[test]
fn failed_user_call_ends_the_request() {
    let failure = || AppError::NotFound("user who not found".to_string());
    let flow = fetch_user("raw".to_string()).advance(Reply::PseudoId(pid()));
    let flow = flow.advance(Reply::Failed(failure()));
    assert_eq!(flow.pending(), None);
    assert_eq!(flow.into_response(), Some(Err(failure())));

    let refused = || AppError::Upstream { status: 400, message: "no pseudonym".to_string() };
    for flow in [
        fetch_user("raw".to_string()),
        post_display("raw".to_string(), "svc".to_string(), seen()),
        list_display("raw".to_string()),
        patch_user("svc".to_string(), "raw".to_string(), PatchUserRequest { is_admin: true }),
    ] {
        let flow = flow.advance(Reply::Failed(refused()));
        assert_eq!(flow.into_response(), Some(Err(refused())));
    }
}

#[test]
fn stray_user_replies_change_nothing() {
    let flow = list_admin_users().advance(Reply::Done).advance(Reply::User(user(true)));
    assert_eq!(flow.pending(), Some(Call::ListUsers));
    assert_eq!(flow.into_response(), None);
}
