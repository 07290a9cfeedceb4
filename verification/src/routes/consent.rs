//! Consent tokens: their creation by a service, and what the holder of one may
//! do without any other authentication.

use vstd::prelude::*;

use crate::db::audit_log;
use crate::db::audit_log::{Entry, Field, Scalar};
use crate::db::consent_tokens::{ConsentToken, ConsentTokenWithContext};
use crate::db::participants::{Participant, UpdateConsent, UpdateLicense};
use crate::error::AppError;
use crate::ids;
use crate::ids::{PseudoId, Timestamp, Uuid};
use crate::routes::table;
use crate::routes::table::{Endpoint, Method, Route};
use crate::text::slash_joined;

verus! {

/// A request for a new token.
#[derive(Debug, PartialEq, Eq)]
pub struct CreateTokenRequest {
    pub session_id: Uuid,
    pub participant_id: Uuid,
    pub pseudo_id: PseudoId,
}

/// A request to change a participant's consent. What is absent stays as it is.
#[derive(Debug, PartialEq, Eq)]
pub struct PatchConsent {
    pub consent_scope: Option<String>,
    pub no_llm_training: Option<bool>,
    pub no_public_release: Option<bool>,
}

/// The announcement that a participant's audio is gone.
#[derive(Debug, PartialEq, Eq)]
pub struct AudioDeleted {
    pub session_id: Uuid,
    pub guild_id: i64,
    pub pseudo_id: PseudoId,
}

/// Whose consent is patched.
#[derive(Clone, Copy, Debug, PartialEq, Eq, Structural)]
pub struct PatchTarget {
    pub session_id: Uuid,
    pub participant_id: Uuid,
}

/// Whose audio is wiped.
#[derive(Debug, PartialEq, Eq)]
pub struct WipeTarget {
    pub session_id: Uuid,
    pub pseudo_id: PseudoId,
}

/// A call that a flow asks for.
#[derive(Debug, PartialEq, Eq)]
pub enum Call {
    CreateToken { session_id: Uuid, participant_id: Uuid, pseudo_id: PseudoId },
    ValidateToken { token: Uuid },
    UpdateConsent { participant_id: Uuid, update: UpdateConsent },
    UpdateLicense { participant_id: Uuid, update: UpdateLicense },
    /// Append to the audit log, inside the open transaction or on its own.
    AppendAudit { entry: Entry, in_transaction: bool },
    /// Open a transaction. It is rolled back if the flow ends before `Commit`.
    Begin,
    /// Delete the chunk rows, inside the transaction; the reply is the keys of
    /// their objects.
    DeleteChunks { session_id: Uuid, pseudo_id: PseudoId },
    /// Delete the segments, inside the transaction.
    DeleteSegments { session_id: Uuid, pseudo_id: PseudoId },
    /// Delete the mute ranges, inside the transaction.
    DeleteMuteRanges { session_id: Uuid, pseudo_id: PseudoId },
    Commit,
    MarkWiped { session_id: Uuid, pseudo_id: PseudoId },
    /// Delete objects from the object store.
    DeleteObjects { keys: Vec<String> },
    LookupGuild { session_id: Uuid },
    /// Announce on the event bus, with the current time.
    Publish { event: AudioDeleted },
}

/// The reply to a call.
#[derive(Debug, PartialEq, Eq)]
pub enum Reply {
    Failed(AppError),
    TokenCreated(ConsentToken),
    Validated(Option<ConsentTokenWithContext>),
    Participant(Participant),
    Keys(Vec<String>),
    GuildId(i64),
    Done,
}

/// The reply to `ValidateToken`, given what the validation gave.
pub open spec fn validation_reply(
    result: Result<Option<ConsentTokenWithContext>, AppError>,
) -> Reply {
    match result {
        Ok(context) => Reply::Validated(context),
        Err(error) => Reply::Failed(error),
    }
}

impl Reply {
    /// The reply to `ValidateToken`, given what the validation gave.
    pub fn of_validation(result: Result<Option<ConsentTokenWithContext>, AppError>) -> (res: Reply)
        ensures
            res == validation_reply(result),
            result matches Ok(context) ==> res == Reply::Validated(context),
            result matches Err(error) ==> res == Reply::Failed(error),
    {
        match result {
            Ok(context) => Reply::Validated(context),
            Err(error) => Reply::Failed(error),
        }
    }
}

/// How a request ends.
#[derive(Debug, PartialEq, Eq)]
pub enum Outcome {
    TokenCreated { token: Uuid, expires_at: Timestamp },
    Context(ConsentTokenWithContext),
    Participant(Participant),
    NoContent,
    TokenMissing,
    Failed(AppError),
}

/// A successful answer.
#[derive(Debug, PartialEq, Eq)]
pub enum Response {
    TokenCreated { token: Uuid, expires_at: Timestamp },
    Context(ConsentTokenWithContext),
    Participant(Participant),
    NoContent,
}

/// Where the handling of a request stands.
#[derive(Debug, PartialEq, Eq)]
pub enum Flow {
    /// Creating a token.
    Creating { service_name: String, input: CreateTokenRequest },
    RecordingCreation { service_name: String, input: CreateTokenRequest, created: ConsentToken },
    /// Reading what a token stands for.
    Reading { token: Uuid },
    /// Patching consent.
    ValidatingPatch { token: Uuid, input: PatchConsent },
    PatchingScope { target: PatchTarget, scope: String, input: PatchConsent },
    PatchingLicense { target: PatchTarget, input: PatchConsent },
    RecordingPatch { target: PatchTarget, updated: Participant, input: PatchConsent },
    /// Wiping audio.
    ValidatingWipe { token: Uuid },
    OpeningWipe { target: WipeTarget },
    WipingChunks { target: WipeTarget },
    WipingSegments { target: WipeTarget, keys: Vec<String> },
    WipingMuteRanges { target: WipeTarget, keys: Vec<String> },
    RecordingWipe { target: WipeTarget, keys: Vec<String> },
    CommittingWipe { target: WipeTarget, keys: Vec<String> },
    MarkingWiped { target: WipeTarget, keys: Vec<String> },
    DeletingObjects { target: WipeTarget, keys: Vec<String> },
    LookingUpGuild { target: WipeTarget },
    Announcing { target: WipeTarget, guild_id: i64 },
    Finished(Outcome),
}

/// What a call asks for, without regard to how it is held.
pub enum CallView {
    CreateToken { session_id: Uuid, participant_id: Uuid, pseudo_id: Seq<char> },
    ValidateToken { token: Uuid },
    UpdateConsent {
        participant_id: Uuid,
        consent_scope: Seq<char>,
        consented_at: Option<Timestamp>,
    },
    UpdateLicense {
        participant_id: Uuid,
        no_llm_training: Option<bool>,
        no_public_release: Option<bool>,
    },
    AppendAudit { entry: audit_log::EntryView, in_transaction: bool },
    Begin,
    DeleteChunks { session_id: Uuid, pseudo_id: Seq<char> },
    DeleteSegments { session_id: Uuid, pseudo_id: Seq<char> },
    DeleteMuteRanges { session_id: Uuid, pseudo_id: Seq<char> },
    Commit,
    MarkWiped { session_id: Uuid, pseudo_id: Seq<char> },
    DeleteObjects { keys: Seq<String> },
    LookupGuild { session_id: Uuid },
    Publish { session_id: Uuid, guild_id: i64, pseudo_id: Seq<char> },
}

impl View for Call {
    type V = CallView;

    open spec fn view(&self) -> CallView {
        match self {
            Call::CreateToken { session_id, participant_id, pseudo_id } => CallView::CreateToken {
                session_id: *session_id,
                participant_id: *participant_id,
                pseudo_id: pseudo_id@,
            },
            Call::ValidateToken { token } => CallView::ValidateToken { token: *token },
            Call::UpdateConsent { participant_id, update } => CallView::UpdateConsent {
                participant_id: *participant_id,
                consent_scope: update.consent_scope@,
                consented_at: update.consented_at,
            },
            Call::UpdateLicense { participant_id, update } => CallView::UpdateLicense {
                participant_id: *participant_id,
                no_llm_training: update.no_llm_training,
                no_public_release: update.no_public_release,
            },
            Call::AppendAudit { entry, in_transaction } => CallView::AppendAudit {
                entry: entry@,
                in_transaction: *in_transaction,
            },
            Call::Begin => CallView::Begin,
            Call::DeleteChunks { session_id, pseudo_id } => CallView::DeleteChunks {
                session_id: *session_id,
                pseudo_id: pseudo_id@,
            },
            Call::DeleteSegments { session_id, pseudo_id } => CallView::DeleteSegments {
                session_id: *session_id,
                pseudo_id: pseudo_id@,
            },
            Call::DeleteMuteRanges { session_id, pseudo_id } => CallView::DeleteMuteRanges {
                session_id: *session_id,
                pseudo_id: pseudo_id@,
            },
            Call::Commit => CallView::Commit,
            Call::MarkWiped { session_id, pseudo_id } => CallView::MarkWiped {
                session_id: *session_id,
                pseudo_id: pseudo_id@,
            },
            Call::DeleteObjects { keys } => CallView::DeleteObjects { keys: keys@ },
            Call::LookupGuild { session_id } => CallView::LookupGuild { session_id: *session_id },
            Call::Publish { event } => CallView::Publish {
                session_id: event.session_id,
                guild_id: event.guild_id,
                pseudo_id: event.pseudo_id@,
            },
        }
    }
}

/// The audit entry of a token's creation.
pub open spec fn creation_entry(
    service_name: Seq<char>,
    input: CreateTokenRequest,
    created: ConsentToken,
) -> audit_log::EntryView {
    audit_log::EntryView {
        actor_service: service_name,
        actor_pseudo: Some(input.pseudo_id@),
        session_id: Some(input.session_id),
        resource_type: "consent_token"@,
        resource_id: ids::hyphenated_form(created.token.bits),
        action: "created"@,
        detail: None,
    }
}

/// The audit entry of a patch: it names the participant as the last write left
/// it, and holds the whole request.
pub open spec fn patch_entry(
    target: PatchTarget,
    updated: Participant,
    input: PatchConsent,
) -> audit_log::EntryView {
    audit_log::EntryView {
        actor_service: "consent_token"@,
        actor_pseudo: Some(updated.pseudo_id@),
        session_id: Some(target.session_id),
        resource_type: "participant"@,
        resource_id: ids::hyphenated_form(target.participant_id.bits),
        action: "consent_patched_via_token"@,
        detail: Some(
            seq![
                audit_log::FieldView {
                    name: "consent_scope"@,
                    value: audit_log::text_or_null(input.consent_scope),
                },
                audit_log::FieldView {
                    name: "no_llm_training"@,
                    value: audit_log::flag_or_null(input.no_llm_training),
                },
                audit_log::FieldView {
                    name: "no_public_release"@,
                    value: audit_log::flag_or_null(input.no_public_release),
                },
            ],
        ),
    }
}

/// The audit entry of a wipe of `chunks` chunks.
pub open spec fn wipe_entry(target: WipeTarget, chunks: nat) -> audit_log::EntryView {
    audit_log::EntryView {
        actor_service: "consent_token"@,
        actor_pseudo: Some(target.pseudo_id@),
        session_id: Some(target.session_id),
        resource_type: "participant_audio"@,
        resource_id: ids::hyphenated_form(target.session_id.bits) + "/"@ + target.pseudo_id@,
        action: "wiped_via_token"@,
        detail: Some(
            seq![
                audit_log::FieldView {
                    name: "chunk_count"@,
                    value: audit_log::ScalarView::Count(chunks),
                },
            ],
        ),
    }
}

/// A patch whose licence flags come next: they are written if one is given.
pub open spec fn patch_license(
    target: PatchTarget,
    updated: Participant,
    input: PatchConsent,
) -> Flow {
    if input.no_llm_training is Some || input.no_public_release is Some {
        Flow::PatchingLicense { target, input }
    } else {
        Flow::RecordingPatch { target, updated, input }
    }
}

/// A patch that starts to write: the scope comes first, if one is given.
pub open spec fn patch_scope(
    target: PatchTarget,
    participant: Participant,
    input: PatchConsent,
) -> Flow {
    match input.consent_scope {
        Some(scope) => Flow::PatchingScope { target, scope, input },
        None => patch_license(target, participant, input),
    }
}

impl Flow {
    /// The call that is pending; none once the request is answered.
    pub open spec fn call(self) -> Option<CallView> {
        match self {
            Flow::Creating { service_name, input } => Some(
                CallView::CreateToken {
                    session_id: input.session_id,
                    participant_id: input.participant_id,
                    pseudo_id: input.pseudo_id@,
                },
            ),
            Flow::RecordingCreation { service_name, input, created } => Some(
                CallView::AppendAudit {
                    entry: creation_entry(service_name@, input, created),
                    in_transaction: false,
                },
            ),
            Flow::Reading { token } => Some(CallView::ValidateToken { token }),
            Flow::ValidatingPatch { token, input } => Some(CallView::ValidateToken { token }),
            Flow::PatchingScope { target, scope, input } => Some(
                CallView::UpdateConsent {
                    participant_id: target.participant_id,
                    consent_scope: scope@,
                    consented_at: None,
                },
            ),
            Flow::PatchingLicense { target, input } => Some(
                CallView::UpdateLicense {
                    participant_id: target.participant_id,
                    no_llm_training: input.no_llm_training,
                    no_public_release: input.no_public_release,
                },
            ),
            Flow::RecordingPatch { target, updated, input } => Some(
                CallView::AppendAudit {
                    entry: patch_entry(target, updated, input),
                    in_transaction: false,
                },
            ),
            Flow::ValidatingWipe { token } => Some(CallView::ValidateToken { token }),
            Flow::OpeningWipe { target } => Some(CallView::Begin),
            Flow::WipingChunks { target } => Some(
                CallView::DeleteChunks {
                    session_id: target.session_id,
                    pseudo_id: target.pseudo_id@,
                },
            ),
            Flow::WipingSegments { target, keys } => Some(
                CallView::DeleteSegments {
                    session_id: target.session_id,
                    pseudo_id: target.pseudo_id@,
                },
            ),
            Flow::WipingMuteRanges { target, keys } => Some(
                CallView::DeleteMuteRanges {
                    session_id: target.session_id,
                    pseudo_id: target.pseudo_id@,
                },
            ),
            Flow::RecordingWipe { target, keys } => Some(
                CallView::AppendAudit {
                    entry: wipe_entry(target, keys@.len()),
                    in_transaction: true,
                },
            ),
            Flow::CommittingWipe { target, keys } => Some(CallView::Commit),
            Flow::MarkingWiped { target, keys } => Some(
                CallView::MarkWiped {
                    session_id: target.session_id,
                    pseudo_id: target.pseudo_id@,
                },
            ),
            Flow::DeletingObjects { target, keys } => Some(
                CallView::DeleteObjects { keys: keys@ },
            ),
            Flow::LookingUpGuild { target } => Some(
                CallView::LookupGuild { session_id: target.session_id },
            ),
            Flow::Announcing { target, guild_id } => Some(
                CallView::Publish {
                    session_id: target.session_id,
                    guild_id,
                    pseudo_id: target.pseudo_id@,
                },
            ),
            Flow::Finished(_) => None,
        }
    }

    /// The state after `reply`. A failure ends the request, unless it is one to
    /// delete objects or to announce, which are not waited for. A reply that is
    /// none to the pending call changes nothing.
    pub open spec fn after(self, reply: Reply) -> Flow {
        match (self, reply) {
            (Flow::Finished(outcome), _) => self,
            (Flow::DeletingObjects { target, keys }, Reply::Failed(_)) => Flow::LookingUpGuild {
                target,
            },
            (Flow::Announcing { target, guild_id }, Reply::Failed(_)) => Flow::Finished(
                Outcome::NoContent,
            ),
            (_, Reply::Failed(error)) => Flow::Finished(Outcome::Failed(error)),
            (Flow::Creating { service_name, input }, Reply::TokenCreated(created)) => {
                Flow::RecordingCreation { service_name, input, created }
            },
            (Flow::RecordingCreation { service_name, input, created }, Reply::Done) => {
                Flow::Finished(
                    Outcome::TokenCreated {
                        token: created.token,
                        expires_at: created.expires_at,
                    },
                )
            },
            (Flow::Reading { token }, Reply::Validated(context)) => match context {
                Some(context) => Flow::Finished(Outcome::Context(context)),
                None => Flow::Finished(Outcome::TokenMissing),
            },
            (Flow::ValidatingPatch { token, input }, Reply::Validated(context)) => match context {
                Some(context) => patch_scope(
                    PatchTarget {
                        session_id: context.session.id,
                        participant_id: context.participant.id,
                    },
                    context.participant,
                    input,
                ),
                None => Flow::Finished(Outcome::TokenMissing),
            },
            (Flow::PatchingScope { target, scope, input }, Reply::Participant(updated)) => {
                patch_license(target, updated, input)
            },
            (Flow::PatchingLicense { target, input }, Reply::Participant(updated)) => {
                Flow::RecordingPatch { target, updated, input }
            },
            (Flow::RecordingPatch { target, updated, input }, Reply::Done) => Flow::Finished(
                Outcome::Participant(updated),
            ),
            (Flow::ValidatingWipe { token }, Reply::Validated(context)) => match context {
                Some(context) => Flow::OpeningWipe {
                    target: WipeTarget {
                        session_id: context.session.id,
                        pseudo_id: context.participant.pseudo_id,
                    },
                },
                None => Flow::Finished(Outcome::TokenMissing),
            },
            (Flow::OpeningWipe { target }, Reply::Done) => Flow::WipingChunks { target },
            (Flow::WipingChunks { target }, Reply::Keys(keys)) => Flow::WipingSegments {
                target,
                keys,
            },
            (Flow::WipingSegments { target, keys }, Reply::Done) => Flow::WipingMuteRanges {
                target,
                keys,
            },
            (Flow::WipingMuteRanges { target, keys }, Reply::Done) => Flow::RecordingWipe {
                target,
                keys,
            },
            (Flow::RecordingWipe { target, keys }, Reply::Done) => Flow::CommittingWipe {
                target,
                keys,
            },
            (Flow::CommittingWipe { target, keys }, Reply::Done) => Flow::MarkingWiped {
                target,
                keys,
            },
            (Flow::MarkingWiped { target, keys }, Reply::Done) => if keys@.len() == 0 {
                Flow::LookingUpGuild { target }
            } else {
                Flow::DeletingObjects { target, keys }
            },
            (Flow::DeletingObjects { target, keys }, Reply::Done) => Flow::LookingUpGuild {
                target,
            },
            (Flow::LookingUpGuild { target }, Reply::GuildId(guild_id)) => Flow::Announcing {
                target,
                guild_id,
            },
            (Flow::Announcing { target, guild_id }, Reply::Done) => Flow::Finished(
                Outcome::NoContent,
            ),
            _ => self,
        }
    }
}

/// Creates a consent token for a service.
pub fn create_token(service_name: String, input: CreateTokenRequest) -> (res: Flow)
    ensures
        res == (Flow::Creating { service_name, input }),
{
    Flow::Creating { service_name, input }
}

/// Shows the holder of a token what it stands for.
pub fn get_consent(token: Uuid) -> (res: Flow)
    ensures
        res == (Flow::Reading { token }),
{
    Flow::Reading { token }
}

/// Changes the consent of the participant that a token stands for.
pub fn patch_consent(token: Uuid, input: PatchConsent) -> (res: Flow)
    ensures
        res == (Flow::ValidatingPatch { token, input }),
{
    Flow::ValidatingPatch { token, input }
}

/// Wipes the audio of the participant that a token stands for.
pub fn delete_audio(token: Uuid) -> (res: Flow)
    ensures
        res == (Flow::ValidatingWipe { token }),
{
    Flow::ValidatingWipe { token }
}

fn continue_with_license(target: PatchTarget, updated: Participant, input: PatchConsent) -> (res:
    Flow)
    ensures
        res == patch_license(target, updated, input),
{
    if input.no_llm_training.is_some() || input.no_public_release.is_some() {
        Flow::PatchingLicense { target, input }
    } else {
        Flow::RecordingPatch { target, updated, input }
    }
}

fn continue_with_scope(target: PatchTarget, participant: Participant, input: PatchConsent) -> (res:
    Flow)
    ensures
        res == patch_scope(target, participant, input),
{
    let scope = match &input.consent_scope {
        Some(scope) => Some(scope.clone()),
        None => None,
    };
    match scope {
        Some(scope) => Flow::PatchingScope { target, scope, input },
        None => continue_with_license(target, participant, input),
    }
}

fn creation_record(service_name: &String, input: &CreateTokenRequest, created: &ConsentToken) -> (res:
    Entry)
    ensures
        res@ == creation_entry(service_name@, *input, *created),
{
    Entry {
        actor_service: service_name.clone(),
        actor_pseudo: Some(input.pseudo_id.text.clone()),
        session_id: Some(input.session_id),
        resource_type: "consent_token".to_owned(),
        resource_id: created.token.to_text(),
        action: "created".to_owned(),
        detail: None,
    }
}

fn patch_record(target: &PatchTarget, updated: &Participant, input: &PatchConsent) -> (res: Entry)
    ensures
        res@ == patch_entry(*target, *updated, *input),
{
    let mut detail: Vec<Field> = Vec::new();
    detail.push(Field::new("consent_scope", Scalar::of_text(&input.consent_scope)));
    detail.push(Field::new("no_llm_training", Scalar::of_flag(input.no_llm_training)));
    detail.push(Field::new("no_public_release", Scalar::of_flag(input.no_public_release)));
    let entry = Entry {
        actor_service: "consent_token".to_owned(),
        actor_pseudo: Some(updated.pseudo_id.text.clone()),
        session_id: Some(target.session_id),
        resource_type: "participant".to_owned(),
        resource_id: target.participant_id.to_text(),
        action: "consent_patched_via_token".to_owned(),
        detail: Some(detail),
    };
    assert(entry@.detail->0 =~= patch_entry(*target, *updated, *input).detail->0);
    entry
}

fn wipe_record(target: &WipeTarget, chunks: usize) -> (res: Entry)
    ensures
        res@ == wipe_entry(*target, chunks as nat),
{
    let mut detail: Vec<Field> = Vec::new();
    detail.push(Field::new("chunk_count", Scalar::Count(chunks as u64)));
    let session = target.session_id.to_text();
    let entry = Entry {
        actor_service: "consent_token".to_owned(),
        actor_pseudo: Some(target.pseudo_id.text.clone()),
        session_id: Some(target.session_id),
        resource_type: "participant_audio".to_owned(),
        resource_id: slash_joined(session.as_str(), target.pseudo_id.as_str()),
        action: "wiped_via_token".to_owned(),
        detail: Some(detail),
    };
    assert(entry@.detail->0 =~= wipe_entry(*target, chunks as nat).detail->0);
    entry
}

fn copy_keys(keys: &Vec<String>) -> (res: Vec<String>)
    ensures
        res@ == keys@,
{
    let res = keys.clone();
    assert(res@ =~= keys@);
    res
}

impl Flow {
    /// The call to make next; none once the request is answered.
    pub fn pending(&self) -> (res: Option<Call>)
        ensures
            match res {
                Some(call) => self.call() == Some(call@),
                None => self.call() is None,
            },
    {
        match self {
            Flow::Creating { service_name: _, input } => Some(
                Call::CreateToken {
                    session_id: input.session_id,
                    participant_id: input.participant_id,
                    pseudo_id: input.pseudo_id.clone(),
                },
            ),
            Flow::RecordingCreation { service_name, input, created } => Some(
                Call::AppendAudit {
                    entry: creation_record(service_name, input, created),
                    in_transaction: false,
                },
            ),
            Flow::Reading { token } => Some(Call::ValidateToken { token: *token }),
            Flow::ValidatingPatch { token, input: _ } => Some(
                Call::ValidateToken { token: *token },
            ),
            Flow::PatchingScope { target, scope, input: _ } => Some(
                Call::UpdateConsent {
                    participant_id: target.participant_id,
                    update: UpdateConsent { consent_scope: scope.clone(), consented_at: None },
                },
            ),
            Flow::PatchingLicense { target, input } => Some(
                Call::UpdateLicense {
                    participant_id: target.participant_id,
                    update: UpdateLicense {
                        no_llm_training: input.no_llm_training,
                        no_public_release: input.no_public_release,
                    },
                },
            ),
            Flow::RecordingPatch { target, updated, input } => Some(
                Call::AppendAudit {
                    entry: patch_record(target, updated, input),
                    in_transaction: false,
                },
            ),
            Flow::ValidatingWipe { token } => Some(Call::ValidateToken { token: *token }),
            Flow::OpeningWipe { target: _ } => Some(Call::Begin),
            Flow::WipingChunks { target } => Some(
                Call::DeleteChunks {
                    session_id: target.session_id,
                    pseudo_id: target.pseudo_id.clone(),
                },
            ),
            Flow::WipingSegments { target, keys: _ } => Some(
                Call::DeleteSegments {
                    session_id: target.session_id,
                    pseudo_id: target.pseudo_id.clone(),
                },
            ),
            Flow::WipingMuteRanges { target, keys: _ } => Some(
                Call::DeleteMuteRanges {
                    session_id: target.session_id,
                    pseudo_id: target.pseudo_id.clone(),
                },
            ),
            Flow::RecordingWipe { target, keys } => Some(
                Call::AppendAudit {
                    entry: wipe_record(target, keys.len()),
                    in_transaction: true,
                },
            ),
            Flow::CommittingWipe { target: _, keys: _ } => Some(Call::Commit),
            Flow::MarkingWiped { target, keys: _ } => Some(
                Call::MarkWiped {
                    session_id: target.session_id,
                    pseudo_id: target.pseudo_id.clone(),
                },
            ),
            Flow::DeletingObjects { target: _, keys } => Some(
                Call::DeleteObjects { keys: copy_keys(keys) },
            ),
            Flow::LookingUpGuild { target } => Some(
                Call::LookupGuild { session_id: target.session_id },
            ),
            Flow::Announcing { target, guild_id } => Some(
                Call::Publish {
                    event: AudioDeleted {
                        session_id: target.session_id,
                        guild_id: *guild_id,
                        pseudo_id: target.pseudo_id.clone(),
                    },
                },
            ),
            Flow::Finished(_) => None,
        }
    }

    /// Takes in the reply to the pending call.
    pub fn advance(self, reply: Reply) -> (res: Flow)
        ensures
            res == self.after(reply),
    {
        match (self, reply) {
            (Flow::Finished(outcome), _) => Flow::Finished(outcome),
            (Flow::DeletingObjects { target, keys: _ }, Reply::Failed(_)) => {
                Flow::LookingUpGuild { target }
            },
            (Flow::Announcing { target: _, guild_id: _ }, Reply::Failed(_)) => Flow::Finished(
                Outcome::NoContent,
            ),
            (_, Reply::Failed(error)) => Flow::Finished(Outcome::Failed(error)),
            (Flow::Creating { service_name, input }, Reply::TokenCreated(created)) => {
                Flow::RecordingCreation { service_name, input, created }
            },
            (Flow::RecordingCreation { service_name: _, input: _, created }, Reply::Done) => {
                Flow::Finished(
                    Outcome::TokenCreated {
                        token: created.token,
                        expires_at: created.expires_at,
                    },
                )
            },
            (Flow::Reading { token: _ }, Reply::Validated(context)) => match context {
                Some(context) => Flow::Finished(Outcome::Context(context)),
                None => Flow::Finished(Outcome::TokenMissing),
            },
            (Flow::ValidatingPatch { token: _, input }, Reply::Validated(context)) => {
                match context {
                    Some(context) => {
                        let target = PatchTarget {
                            session_id: context.session.id,
                            participant_id: context.participant.id,
                        };
                        continue_with_scope(target, context.participant, input)
                    },
                    None => Flow::Finished(Outcome::TokenMissing),
                }
            },
            (
                Flow::PatchingScope { target, scope: _, input },
                Reply::Participant(updated),
            ) => continue_with_license(target, updated, input),
            (Flow::PatchingLicense { target, input }, Reply::Participant(updated)) => {
                Flow::RecordingPatch { target, updated, input }
            },
            (Flow::RecordingPatch { target: _, updated, input: _ }, Reply::Done) => {
                Flow::Finished(Outcome::Participant(updated))
            },
            (Flow::ValidatingWipe { token: _ }, Reply::Validated(context)) => match context {
                Some(context) => Flow::OpeningWipe {
                    target: WipeTarget {
                        session_id: context.session.id,
                        pseudo_id: context.participant.pseudo_id,
                    },
                },
                None => Flow::Finished(Outcome::TokenMissing),
            },
            (Flow::OpeningWipe { target }, Reply::Done) => Flow::WipingChunks { target },
            (Flow::WipingChunks { target }, Reply::Keys(keys)) => Flow::WipingSegments {
                target,
                keys,
            },
            (Flow::WipingSegments { target, keys }, Reply::Done) => Flow::WipingMuteRanges {
                target,
                keys,
            },
            (Flow::WipingMuteRanges { target, keys }, Reply::Done) => Flow::RecordingWipe {
                target,
                keys,
            },
            (Flow::RecordingWipe { target, keys }, Reply::Done) => Flow::CommittingWipe {
                target,
                keys,
            },
            (Flow::CommittingWipe { target, keys }, Reply::Done) => Flow::MarkingWiped {
                target,
                keys,
            },
            (Flow::MarkingWiped { target, keys }, Reply::Done) => {
                if keys.len() == 0 {
                    Flow::LookingUpGuild { target }
                } else {
                    Flow::DeletingObjects { target, keys }
                }
            },
            (Flow::DeletingObjects { target, keys: _ }, Reply::Done) => Flow::LookingUpGuild {
                target,
            },
            (Flow::LookingUpGuild { target }, Reply::GuildId(guild_id)) => Flow::Announcing {
                target,
                guild_id,
            },
            (Flow::Announcing { target: _, guild_id: _ }, Reply::Done) => Flow::Finished(
                Outcome::NoContent,
            ),
            (flow, _) => flow,
        }
    }

    /// The answer to the request; none while a call is pending.
    pub fn into_response(self) -> (res: Option<Result<Response, AppError>>)
        ensures
            match self {
                Flow::Finished(outcome) => res is Some && answers(outcome, res->0),
                _ => res is None,
            },
            self matches Flow::Finished(Outcome::TokenCreated { token, expires_at }) ==> res == Some(
                Ok::<Response, AppError>(Response::TokenCreated { token, expires_at }),
            ),
            self matches Flow::Finished(Outcome::Context(context)) ==> res == Some(
                Ok::<Response, AppError>(Response::Context(context)),
            ),
            self matches Flow::Finished(Outcome::Participant(participant)) ==> res == Some(
                Ok::<Response, AppError>(Response::Participant(participant)),
            ),
            self matches Flow::Finished(Outcome::NoContent) ==> res == Some(
                Ok::<Response, AppError>(Response::NoContent),
            ),
            self matches Flow::Finished(Outcome::TokenMissing) ==> (res matches Some(
                Err(AppError::NotFound(message)),
            ) && message@ == "consent token not found or expired"@),
            self matches Flow::Finished(Outcome::Failed(error)) ==> res == Some(
                Err::<Response, AppError>(error),
            ),
    {
        match self {
            Flow::Finished(Outcome::TokenCreated { token, expires_at }) => Some(
                Ok(Response::TokenCreated { token, expires_at }),
            ),
            Flow::Finished(Outcome::Context(context)) => Some(Ok(Response::Context(context))),
            Flow::Finished(Outcome::Participant(participant)) => Some(
                Ok(Response::Participant(participant)),
            ),
            Flow::Finished(Outcome::NoContent) => Some(Ok(Response::NoContent)),
            Flow::Finished(Outcome::TokenMissing) => Some(
                Err(AppError::NotFound("consent token not found or expired".to_owned())),
            ),
            Flow::Finished(Outcome::Failed(error)) => Some(Err(error)),
            _ => None,
        }
    }
}

impl Response {
    /// The HTTP status of the answer.
    pub fn status(&self) -> (res: u16)
        ensures
            res == (if *self is NoContent {
                204u16
            } else {
                200u16
            }),
    {
        match self {
            Response::NoContent => 204,
            _ => 200,
        }
    }
}

/// `answer` is how a request with this outcome is answered.
pub open spec fn answers(outcome: Outcome, answer: Result<Response, AppError>) -> bool {
    match outcome {
        Outcome::TokenCreated { token, expires_at } => answer == Ok::<Response, AppError>(
            Response::TokenCreated { token, expires_at },
        ),
        Outcome::Context(context) => answer == Ok::<Response, AppError>(
            Response::Context(context),
        ),
        Outcome::Participant(participant) => answer == Ok::<Response, AppError>(
            Response::Participant(participant),
        ),
        Outcome::NoContent => answer == Ok::<Response, AppError>(Response::NoContent),
        Outcome::TokenMissing => answer matches Err(AppError::NotFound(message)) && message@
            == "consent token not found or expired"@,
        Outcome::Failed(error) => answer == Err::<Response, AppError>(error),
    }
}

/// The routes of `internal_routes`.
pub open spec fn internal_table() -> Seq<table::RouteView> {
    seq![
        table::RouteView {
            method: Method::Post,
            path: "/internal/consent-tokens"@,
            endpoint: Endpoint::CreateToken,
        },
    ]
}

/// The routes that only authenticated services reach.
pub fn internal_routes() -> (res: Vec<Route>)
    ensures
        table::table_of(res@) == internal_table(),
{
    let mut routes: Vec<Route> = Vec::new();
    routes.push(Route::new(Method::Post, "/internal/consent-tokens", Endpoint::CreateToken));
    assert(table::table_of(routes@) =~= internal_table());
    routes
}

/// The routes of `public_routes`.
pub open spec fn public_table() -> Seq<table::RouteView> {
    seq![
        table::RouteView {
            method: Method::Get,
            path: "/public/consent/{token}"@,
            endpoint: Endpoint::GetConsent,
        },
        table::RouteView {
            method: Method::Patch,
            path: "/public/consent/{token}"@,
            endpoint: Endpoint::PatchConsent,
        },
        table::RouteView {
            method: Method::Delete,
            path: "/public/consent/{token}/audio"@,
            endpoint: Endpoint::DeleteAudio,
        },
    ]
}

/// The routes that are open without authentication.
pub fn public_routes() -> (res: Vec<Route>)
    ensures
        table::table_of(res@) == public_table(),
{
    let mut routes: Vec<Route> = Vec::new();
    routes.push(Route::new(Method::Get, "/public/consent/{token}", Endpoint::GetConsent));
    routes.push(Route::new(Method::Patch, "/public/consent/{token}", Endpoint::PatchConsent));
    routes.push(Route::new(Method::Delete, "/public/consent/{token}/audio", Endpoint::DeleteAudio));
    assert(table::table_of(routes@) =~= public_table());
    routes
}

} // verus!
