use chronicle::db::consent_tokens::{create, find_live, revoke, validate, ConsentToken, Issued};
use chronicle::db::participants::Participant;
use chronicle::db::sessions::Session;
use chronicle::error::AppError;
use chronicle::ids::{PseudoId, Timestamp, Uuid};

fn at(micros: i64) -> Timestamp {
    Timestamp { micros }
}

fn id(bits: u128) -> Uuid {
    Uuid { bits }
}

fn pid(text: &str) -> PseudoId {
    PseudoId { text: text.to_string() }
}

fn issued(token: u128, expires: i64) -> Issued {
    Issued { token: id(token), created_at: at(0), expires_at: at(expires), revoked_at: None }
}

fn session(bits: u128) -> Session {
    Session {
        id: id(bits),
        guild_id: 7,
        campaign_name: None,
        started_at: at(1),
        ended_at: None,
        status: "ended".to_string(),
        body: format!("s{}", bits),
    }
}

fn participant(bits: u128, session: u128, who: &str) -> Participant {
    Participant {
        id: id(bits),
        session_id: id(session),
        pseudo_id: pid(who),
        consent_scope: None,
        data_wiped_at: None,
        body: format!("p{}", bits),
    }
}

#[test]
fn created_token_is_appended_and_returned() {
    let mut tokens: Vec<ConsentToken> = vec![];
    create(&mut tokens, id(1), id(2), &pid("x"), issued(10, 100));
    let row = create(&mut tokens, id(3), id(4), &pid("y"), issued(11, 200));
    assert_eq!(
        row,
        ConsentToken {
            token: id(11),
            session_id: id(3),
            participant_id: id(4),
            pseudo_id: pid("y"),
            created_at: at(0),
            expires_at: at(200),
            revoked_at: None,
        }
    );
    assert_eq!(tokens.len(), 2);
    assert_eq!(tokens[1], row);
    assert_eq!(tokens[0].token, id(10));
}

#[test]
fn created_token_is_valid() {
    let mut tokens: Vec<ConsentToken> = vec![];
    create(&mut tokens, id(1), id(2), &pid("x"), issued(10, 100));
    let sessions = vec![session(9), session(1)];
    let participants = vec![participant(3, 1, "z"), participant(2, 1, "x")];
    let context = validate(&tokens, &sessions, &participants, id(10), at(99)).unwrap().unwrap();
    assert_eq!(context.token, tokens[0]);
    assert_eq!(context.session, session(1));
    assert_eq!(context.participant, participant(2, 1, "x"));
}

#[test]
fn unknown_expired_and_revoked_tokens_are_not_valid() {
    let mut tokens: Vec<ConsentToken> = vec![];
    create(&mut tokens, id(1), id(2), &pid("x"), issued(10, 100));
    let sessions = vec![session(1)];
    let participants = vec![participant(2, 1, "x")];
    assert_eq!(validate(&tokens, &sessions, &participants, id(11), at(0)), Ok(None));
    // The instant of expiry is too late.
    assert_eq!(validate(&tokens, &sessions, &participants, id(10), at(100)), Ok(None));
    assert_eq!(validate(&tokens, &sessions, &participants, id(10), at(101)), Ok(None));
    revoke(&mut tokens, id(10), at(5));
    assert_eq!(tokens[0].revoked_at, Some(at(5)));
    for now in [0, 4, 5, 99, 1000] {
        assert_eq!(validate(&tokens, &sessions, &participants, id(10), at(now)), Ok(None));
    }
}

#[test]
fn revoking_leaves_other_tokens() {
    let mut tokens: Vec<ConsentToken> = vec![];
    create(&mut tokens, id(1), id(2), &pid("x"), issued(10, 100));
    create(&mut tokens, id(1), id(2), &pid("x"), issued(11, 100));
    let before = tokens[1].clone();
    revoke(&mut tokens, id(10), at(5));
    assert_eq!(tokens[1], before);
    assert!(find_live(&tokens, id(10), at(6)).is_none());
    assert_eq!(find_live(&tokens, id(11), at(6)), Some(&before));
    revoke(&mut tokens, id(99), at(7));
    assert_eq!(tokens[1], before);
}

#[test]
fn revoking_again_moves_the_instant() {
    let mut tokens: Vec<ConsentToken> = vec![];
    create(&mut tokens, id(1), id(2), &pid("x"), issued(10, 100));
    revoke(&mut tokens, id(10), at(5));
    revoke(&mut tokens, id(10), at(8));
    assert_eq!(tokens[0].revoked_at, Some(at(8)));
}

#[test]
fn session_and_participant_must_be_there() {
    let mut tokens: Vec<ConsentToken> = vec![];
    create(&mut tokens, id(1), id(2), &pid("x"), issued(10, 100));
    let missing = validate(&tokens, &vec![], &vec![participant(2, 1, "x")], id(10), at(1));
    assert_eq!(missing, Err(AppError::RowNotFound));
    let missing = validate(&tokens, &vec![session(1)], &vec![], id(10), at(1));
    assert_eq!(missing, Err(AppError::RowNotFound));
}
