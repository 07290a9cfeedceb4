use chronicle::db::audit_log::{Entry, Field, Scalar};
use chronicle::db::consent_tokens::{ConsentToken, ConsentTokenWithContext};
use chronicle::db::participants::{Participant, UpdateConsent, UpdateLicense};
use chronicle::db::sessions::Session;
use chronicle::error::AppError;
use chronicle::ids::{PseudoId, Timestamp, Uuid};
use chronicle::routes::consent::{
    create_token, delete_audio, get_consent, patch_consent, AudioDeleted, Call,
    CreateTokenRequest, Flow, PatchConsent, Reply, Response,
};

const SESSION: Uuid = Uuid { bits: 0xa };
const SESSION_TEXT: &str = "00000000-0000-0000-0000-00000000000a";
const PARTICIPANT: Uuid = Uuid { bits: 0xb };
const PARTICIPANT_TEXT: &str = "00000000-0000-0000-0000-00000000000b";
const TOKEN: Uuid = Uuid { bits: 0xc };
const TOKEN_TEXT: &str = "00000000-0000-0000-0000-00000000000c";

fn at(micros: i64) -> Timestamp {
    Timestamp { micros }
}

fn pid(text: &str) -> PseudoId {
    PseudoId { text: text.to_string() }
}

fn participant(body: &str) -> Participant {
    Participant {
        id: PARTICIPANT,
        session_id: SESSION,
        pseudo_id: pid("who"),
        consent_scope: None,
        data_wiped_at: None,
        body: body.to_string(),
    }
}

fn token() -> ConsentToken {
    ConsentToken {
        token: TOKEN,
        session_id: SESSION,
        participant_id: PARTICIPANT,
        pseudo_id: pid("who"),
        created_at: at(1),
        expires_at: at(2),
        revoked_at: None,
    }
}

fn context() -> ConsentTokenWithContext {
    ConsentTokenWithContext {
        token: token(),
        session: Session {
            id: SESSION,
            guild_id: 5,
            campaign_name: None,
            started_at: at(0),
            ended_at: None,
            status: "ended".to_string(),
            body: "{}".to_string(),
        },
        participant: participant("before"),
    }
}

fn failure() -> AppError {
    AppError::Upstream { status: 503, message: "down".to_string() }
}

fn text(s: &str) -> Scalar {
    Scalar::Text(s.to_string())
}

fn field(name: &str, value: Scalar) -> Field {
    Field { name: name.to_string(), value }
}

fn validation() -> Option<Call> {
    Some(Call::ValidateToken { token: TOKEN })
}

fn missing() -> Option<Result<Response, AppError>> {
    Some(Err(AppError::NotFound("consent token not found or expired".to_string())))
}

#[test]
fn creation_is_recorded_and_answered() {
    let input =
        CreateTokenRequest { session_id: SESSION, participant_id: PARTICIPANT, pseudo_id: pid("who") };
    let flow = create_token("bot".to_string(), input);
    assert_eq!(
        flow.pending(),
        Some(Call::CreateToken {
            session_id: SESSION,
            participant_id: PARTICIPANT,
            pseudo_id: pid("who"),
        })
    );
    let flow = flow.advance(Reply::TokenCreated(token()));
    assert_eq!(
        flow.pending(),
        Some(Call::AppendAudit {
            entry: Entry {
                actor_service: "bot".to_string(),
                actor_pseudo: Some("who".to_string()),
                session_id: Some(SESSION),
                resource_type: "consent_token".to_string(),
                resource_id: TOKEN_TEXT.to_string(),
                action: "created".to_string(),
                detail: None,
            },
            in_transaction: false,
        })
    );
    let flow = flow.advance(Reply::Done);
    assert_eq!(flow.pending(), None);
    let answer = flow.into_response();
    assert_eq!(answer, Some(Ok(Response::TokenCreated { token: TOKEN, expires_at: at(2) })));
    assert_eq!(answer.unwrap().unwrap().status(), 200);
}

#[test]
fn valid_token_is_answered_with_its_context() {
    let flow = get_consent(TOKEN);
    assert_eq!(flow.pending(), validation());
    let flow = flow.advance(Reply::Validated(Some(context())));
    assert_eq!(flow.into_response(), Some(Ok(Response::Context(context()))));
}

#[test]
fn invalid_token_is_refused() {
    let empty =
        || PatchConsent { consent_scope: None, no_llm_training: None, no_public_release: None };
    for flow in [get_consent(TOKEN), patch_consent(TOKEN, empty()), delete_audio(TOKEN)] {
        assert_eq!(flow.pending(), validation());
        let flow = flow.advance(Reply::Validated(None));
        assert_eq!(flow.pending(), None);
        assert_eq!(flow.into_response(), missing());
    }
}

#[test]
fn outcome_of_a_validation_becomes_its_reply() {
    assert_eq!(
        Reply::of_validation(Ok(Some(context()))),
        Reply::Validated(Some(context()))
    );
    assert_eq!(Reply::of_validation(Ok(None)), Reply::Validated(None));
    assert_eq!(
        Reply::of_validation(Err(AppError::RowNotFound)),
        Reply::Failed(AppError::RowNotFound)
    );
}

fn patch_audit(flow: &Flow, detail: Vec<Field>) {
    assert_eq!(
        flow.pending(),
        Some(Call::AppendAudit {
            entry: Entry {
                actor_service: "consent_token".to_string(),
                actor_pseudo: Some("who".to_string()),
                session_id: Some(SESSION),
                resource_type: "participant".to_string(),
                resource_id: PARTICIPANT_TEXT.to_string(),
                action: "consent_patched_via_token".to_string(),
                detail: Some(detail),
            },
            in_transaction: false,
        })
    );
}

#[test]
fn patch_writes_scope_then_license() {
    let input = PatchConsent {
        consent_scope: Some("full".to_string()),
        no_llm_training: Some(true),
        no_public_release: None,
    };
    let flow = patch_consent(TOKEN, input).advance(Reply::Validated(Some(context())));
    assert_eq!(
        flow.pending(),
        Some(Call::UpdateConsent {
            participant_id: PARTICIPANT,
            update: UpdateConsent { consent_scope: "full".to_string(), consented_at: None },
        })
    );
    let flow = flow.advance(Reply::Participant(participant("scoped")));
    assert_eq!(
        flow.pending(),
        Some(Call::UpdateLicense {
            participant_id: PARTICIPANT,
            update: UpdateLicense { no_llm_training: Some(true), no_public_release: None },
        })
    );
    let flow = flow.advance(Reply::Participant(participant("licensed")));
    patch_audit(
        &flow,
        vec![
            field("consent_scope", text("full")),
            field("no_llm_training", Scalar::Bool(true)),
            field("no_public_release", Scalar::Null),
        ],
    );
    let flow = flow.advance(Reply::Done);
    assert_eq!(flow.into_response(), Some(Ok(Response::Participant(participant("licensed")))));
}

#[test]
fn patch_of_the_scope_alone_leaves_the_license() {
    let input = PatchConsent {
        consent_scope: Some("full".to_string()),
        no_llm_training: None,
        no_public_release: None,
    };
    let flow = patch_consent(TOKEN, input).advance(Reply::Validated(Some(context())));
    let flow = flow.advance(Reply::Participant(participant("scoped")));
    patch_audit(
        &flow,
        vec![
            field("consent_scope", text("full")),
            field("no_llm_training", Scalar::Null),
            field("no_public_release", Scalar::Null),
        ],
    );
    let flow = flow.advance(Reply::Done);
    assert_eq!(flow.into_response(), Some(Ok(Response::Participant(participant("scoped")))));
}

#[test]
fn patch_of_the_license_alone_leaves_the_scope() {
    let input =
        PatchConsent { consent_scope: None, no_llm_training: None, no_public_release: Some(false) };
    let flow = patch_consent(TOKEN, input).advance(Reply::Validated(Some(context())));
    assert_eq!(
        flow.pending(),
        Some(Call::UpdateLicense {
            participant_id: PARTICIPANT,
            update: UpdateLicense { no_llm_training: None, no_public_release: Some(false) },
        })
    );
}

#[test]
fn empty_patch_is_recorded_and_changes_nothing() {
    let input = PatchConsent { consent_scope: None, no_llm_training: None, no_public_release: None };
    let flow = patch_consent(TOKEN, input).advance(Reply::Validated(Some(context())));
    patch_audit(
        &flow,
        vec![
            field("consent_scope", Scalar::Null),
            field("no_llm_training", Scalar::Null),
            field("no_public_release", Scalar::Null),
        ],
    );
    let flow = flow.advance(Reply::Done);
    assert_eq!(flow.into_response(), Some(Ok(Response::Participant(participant("before")))));
}

fn wiped_to_the_mark(keys: Vec<String>) -> Flow {
    let who = || pid("who");
    let count = keys.len() as u64;
    let flow = delete_audio(TOKEN).advance(Reply::Validated(Some(context())));
    assert_eq!(flow.pending(), Some(Call::Begin));
    let flow = flow.advance(Reply::Done);
    assert_eq!(
        flow.pending(),
        Some(Call::DeleteChunks { session_id: SESSION, pseudo_id: who() })
    );
    let flow = flow.advance(Reply::Keys(keys));
    assert_eq!(
        flow.pending(),
        Some(Call::DeleteSegments { session_id: SESSION, pseudo_id: who() })
    );
    let flow = flow.advance(Reply::Done);
    assert_eq!(
        flow.pending(),
        Some(Call::DeleteMuteRanges { session_id: SESSION, pseudo_id: who() })
    );
    let flow = flow.advance(Reply::Done);
    assert_eq!(
        flow.pending(),
        Some(Call::AppendAudit {
            entry: Entry {
                actor_service: "consent_token".to_string(),
                actor_pseudo: Some("who".to_string()),
                session_id: Some(SESSION),
                resource_type: "participant_audio".to_string(),
                resource_id: format!("{}/who", SESSION_TEXT),
                action: "wiped_via_token".to_string(),
                detail: Some(vec![field("chunk_count", Scalar::Count(count))]),
            },
            in_transaction: true,
        })
    );
    let flow = flow.advance(Reply::Done);
    assert_eq!(flow.pending(), Some(Call::Commit));
    let flow = flow.advance(Reply::Done);
    assert_eq!(flow.pending(), Some(Call::MarkWiped { session_id: SESSION, pseudo_id: who() }));
    flow.advance(Reply::Done)
}

fn announced(flow: Flow) {
    assert_eq!(flow.pending(), Some(Call::LookupGuild { session_id: SESSION }));
    let flow = flow.advance(Reply::GuildId(42));
    assert_eq!(
        flow.pending(),
        Some(Call::Publish {
            event: AudioDeleted { session_id: SESSION, guild_id: 42, pseudo_id: pid("who") },
        })
    );
    let answer = flow.advance(Reply::Done).into_response();
    assert_eq!(answer, Some(Ok(Response::NoContent)));
    assert_eq!(answer.unwrap().unwrap().status(), 204);
}

#[test]
fn wipe_takes_its_course() {
    let keys = vec!["k1".to_string(), "k2".to_string()];
    let flow = wiped_to_the_mark(keys.clone());
    assert_eq!(flow.pending(), Some(Call::DeleteObjects { keys }));
    announced(flow.advance(Reply::Done));
}

#[test]
fn wipe_without_chunks_deletes_no_objects() {
    announced(wiped_to_the_mark(vec![]));
}

#[test]
fn leftover_objects_do_not_fail_a_wipe() {
    let flow = wiped_to_the_mark(vec!["k".to_string()]);
    announced(flow.advance(Reply::Failed(failure())));
}

#[test]
fn unheard_announcement_does_not_fail_a_wipe() {
    let flow = wiped_to_the_mark(vec![]).advance(Reply::GuildId(1));
    let flow = flow.advance(Reply::Failed(failure()));
    assert_eq!(flow.into_response(), Some(Ok(Response::NoContent)));
}

fn announcements(token: Uuid, replies: Vec<Reply>) -> (usize, Flow) {
    let mut flow = delete_audio(token);
    let mut count = 0;
    for reply in replies {
        if let Some(Call::Publish { .. }) = flow.pending() {
            count += 1;
        }
        flow = flow.advance(reply);
    }
    (count, flow)
}

#[test]
fn wipe_is_announced_once_if_it_succeeds() {
    let replies = |committed: Reply| {
        vec![
            Reply::Validated(Some(context())),
            Reply::Done,
            Reply::Keys(vec![]),
            Reply::Done,
            Reply::Done,
            Reply::Done,
            committed,
            Reply::Done,
            Reply::GuildId(7),
            Reply::Done,
            Reply::Done,
        ]
    };
    let (count, flow) = announcements(token().token, replies(Reply::Done));
    assert_eq!(count, 1);
    assert_eq!(flow.into_response(), Some(Ok(Response::NoContent)));
    let (count, flow) = announcements(token().token, replies(Reply::Failed(failure())));
    assert_eq!(count, 0);
    assert_eq!(flow.into_response(), Some(Err(failure())));
}

#[test]
fn failure_is_passed_on() {
    let input = CreateTokenRequest {
        session_id: SESSION,
        participant_id: PARTICIPANT,
        pseudo_id: pid("who"),
    };
    let create = create_token("bot".to_string(), input);
    let recording = {
        let input = CreateTokenRequest {
            session_id: SESSION,
            participant_id: PARTICIPANT,
            pseudo_id: pid("who"),
        };
        create_token("bot".to_string(), input).advance(Reply::TokenCreated(token()))
    };
    let in_transaction = delete_audio(TOKEN)
        .advance(Reply::Validated(Some(context())))
        .advance(Reply::Done)
        .advance(Reply::Keys(vec!["k".to_string()]));
    let marking = wiped_to_the_mark(vec![]);
    for flow in [create, recording, get_consent(TOKEN), in_transaction, marking] {
        let flow = flow.advance(Reply::Failed(failure()));
        assert_eq!(flow.pending(), None);
        assert_eq!(flow.into_response(), Some(Err(failure())));
    }
}

#[test]
fn stray_replies_change_nothing() {
    let flow = get_consent(TOKEN).advance(Reply::Done).advance(Reply::GuildId(3));
    assert_eq!(flow.pending(), validation());
    let flow = flow.advance(Reply::Validated(None));
    let flow = flow.advance(Reply::Validated(Some(context()))).advance(Reply::Failed(failure()));
    assert_eq!(flow.into_response(), missing());
    assert_eq!(get_consent(TOKEN).into_response(), None);
}
