//! What holds of every run of the consent flows.

use vstd::prelude::*;

use crate::db::audit_log;
use crate::db::consent_tokens;
use crate::db::consent_tokens::{ConsentToken, ConsentTokenWithContext};
use crate::db::participants::Participant;
use crate::db::sessions::Session;
use crate::error::AppError;
use crate::ids;
use crate::ids::{Timestamp, Uuid};
use crate::routes::consent;
use crate::routes::consent::{
    Call, CallView, CreateTokenRequest, Flow, Outcome, PatchConsent, PatchTarget, Reply, Response,
    WipeTarget,
};

verus! {

/// The state of a flow that was at `start`, after the first `k` of `replies`.
pub open spec fn state_at(start: Flow, replies: Seq<Reply>, k: int) -> Flow
    decreases k,
{
    if k <= 0 {
        start
    } else {
        state_at(start, replies, k - 1).after(replies[k - 1])
    }
}

/// The call to which `replies[k]` is the reply.
pub open spec fn asked(start: Flow, replies: Seq<Reply>, k: int) -> Option<CallView> {
    state_at(start, replies, k).call()
}

/// A course that a flow may take: the calls, each with its reply.
pub type Script = Seq<(CallView, Reply)>;

/// The replies of a script.
pub open spec fn replies_of(script: Script) -> Seq<Reply> {
    script.map_values(|exchange: (CallView, Reply)| exchange.1)
}

/// A flow at `start` that gets the replies of the script makes the calls of the
/// script, in order, and no others, and ends in `end`.
pub open spec fn follows(start: Flow, script: Script, end: Flow) -> bool {
    &&& forall|k: int|
        0 <= k < script.len() ==> #[trigger] asked(start, replies_of(script), k) == Some(
            script[k].0,
        )
    &&& state_at(start, replies_of(script), script.len() as int) == end
}

/// A handler's first state.
pub open spec fn is_start(flow: Flow) -> bool {
    ||| flow is Creating
    ||| flow is Reading
    ||| flow is ValidatingPatch
    ||| flow is ValidatingWipe
}

/// The first state of a handler that is open to the holder of a token.
pub open spec fn is_public_start(flow: Flow) -> bool {
    is_start(flow) && !(flow is Creating)
}

/// Some reply has vouched for the token.
pub open spec fn vouched(replies: Seq<Reply>, n: int) -> bool {
    exists|k: int| 0 <= k < n && (#[trigger] replies[k] matches Reply::Validated(Some(_)))
}

/// An entry was appended to the audit log.
pub open spec fn recorded(start: Flow, replies: Seq<Reply>, n: int) -> bool {
    exists|k: int|
        0 <= k < n && (#[trigger] asked(start, replies, k) matches Some(CallView::AppendAudit { .. }))
            && replies[k] is Done
}

/// The transaction was committed.
pub open spec fn committed(start: Flow, replies: Seq<Reply>, n: int) -> bool {
    exists|k: int|
        0 <= k < n && #[trigger] asked(start, replies, k) == Some(CallView::Commit)
            && replies[k] is Done
}

/// How many replies a flow may still need.
pub open spec fn remaining(flow: Flow) -> nat {
    match flow {
        Flow::Creating { .. } => 2,
        Flow::RecordingCreation { .. } => 1,
        Flow::Reading { .. } => 1,
        Flow::ValidatingPatch { .. } => 4,
        Flow::PatchingScope { .. } => 3,
        Flow::PatchingLicense { .. } => 2,
        Flow::RecordingPatch { .. } => 1,
        Flow::ValidatingWipe { .. } => 11,
        Flow::OpeningWipe { .. } => 10,
        Flow::WipingChunks { .. } => 9,
        Flow::WipingSegments { .. } => 8,
        Flow::WipingMuteRanges { .. } => 7,
        Flow::RecordingWipe { .. } => 6,
        Flow::CommittingWipe { .. } => 5,
        Flow::MarkingWiped { .. } => 4,
        Flow::DeletingObjects { .. } => 3,
        Flow::LookingUpGuild { .. } => 2,
        Flow::Announcing { .. } => 1,
        Flow::Finished(_) => 0,
    }
}

/// `reply` is one to `call`: a failure, or what the call yields.
pub open spec fn fits(call: CallView, reply: Reply) -> bool {
    ||| reply is Failed
    ||| match call {
        CallView::CreateToken { .. } => reply is TokenCreated,
        CallView::ValidateToken { .. } => reply is Validated,
        CallView::UpdateConsent { .. } => reply is Participant,
        CallView::UpdateLicense { .. } => reply is Participant,
        CallView::DeleteChunks { .. } => reply is Keys,
        CallView::LookupGuild { .. } => reply is GuildId,
        _ => reply is Done,
    }
}

/// Every reply to the pending call brings the flow closer to its end; any other
/// reply changes nothing.
pub proof fn law_replies_lead_to_an_answer(flow: Flow, reply: Reply)
    ensures
        flow.call() is None <==> flow is Finished,
        match flow.call() {
            Some(call) => if fits(call, reply) {
                remaining(flow.after(reply)) < remaining(flow)
            } else {
                flow.after(reply) == flow
            },
            None => flow.after(reply) == flow,
        },
{
}

/// A token that is not valid is answered as missing, whatever the request.
pub proof fn law_invalid_token_is_refused(start: Flow)
    requires
        is_public_start(start),
    ensures
        start.call() matches Some(CallView::ValidateToken { .. }),
        start.after(Reply::Validated(None)) == Flow::Finished(Outcome::TokenMissing),
{
}

/// A request on a token that was revoked is refused, at any time.
pub proof fn law_revoked_token_is_refused(
    start: Flow,
    tokens: Seq<ConsentToken>,
    sessions: Seq<Session>,
    participants: Seq<Participant>,
    token: Uuid,
    at: Timestamp,
    now: Timestamp,
)
    requires
        is_public_start(start),
        start.call() == Some(CallView::ValidateToken { token }),
    ensures
        start.after(
            consent::validation_reply(
                consent_tokens::validated(
                    consent_tokens::revoked(tokens, token, at),
                    sessions,
                    participants,
                    token,
                    now,
                ),
            ),
        ) == Flow::Finished(Outcome::TokenMissing),
{
    consent_tokens::law_revoked_token_is_never_valid(
        tokens,
        sessions,
        participants,
        token,
        at,
        now,
    );
}

/// A request on a token of which every row has expired is refused.
pub proof fn law_expired_token_is_refused(
    start: Flow,
    tokens: Seq<ConsentToken>,
    sessions: Seq<Session>,
    participants: Seq<Participant>,
    token: Uuid,
    now: Timestamp,
)
    requires
        is_public_start(start),
        start.call() == Some(CallView::ValidateToken { token }),
        forall|i: int|
            0 <= i < tokens.len() && (#[trigger] tokens[i]).token == token
                ==> tokens[i].expires_at.micros <= now.micros,
    ensures
        start.after(
            consent::validation_reply(
                consent_tokens::validated(tokens, sessions, participants, token, now),
            ),
        ) == Flow::Finished(Outcome::TokenMissing),
{
    crate::db::select::lemma_first_where(tokens, consent_tokens::live(token, now));
}

/// For the holder of a token nothing but its validation is called before a
/// reply has vouched for the token.
pub proof fn law_nothing_is_touched_without_a_valid_token(
    start: Flow,
    replies: Seq<Reply>,
    n: int,
)
    requires
        is_public_start(start),
        0 <= n <= replies.len(),
    ensures
        asked(start, replies, n) matches Some(call) && !(call is ValidateToken) ==> vouched(
            replies,
            n,
        ),
{
    lemma_before_vouched(start, replies, n);
}

proof fn lemma_before_vouched(start: Flow, replies: Seq<Reply>, n: int)
    requires
        is_public_start(start),
        0 <= n <= replies.len(),
    ensures
        vouched(replies, n) || state_at(start, replies, n) == start || state_at(
            start,
            replies,
            n,
        ) is Finished,
    decreases n,
{
    if n > 0 {
        lemma_before_vouched(start, replies, n - 1);
        if vouched(replies, n - 1) {
            let k = choose|k: int|
                0 <= k < n - 1 && (#[trigger] replies[k] matches Reply::Validated(Some(_)));
            assert(replies[k] matches Reply::Validated(Some(_)));
        } else if !vouched(replies, n) {
            assert(!(replies[n - 1] matches Reply::Validated(Some(_))));
        }
    }
}

/// A reply has vouched for the token, as one that stands for `context`.
pub open spec fn vouched_for(
    replies: Seq<Reply>,
    n: int,
    context: ConsentTokenWithContext,
) -> bool {
    exists|k: int| 0 <= k < n && #[trigger] replies[k] == Reply::Validated(Some(context))
}

/// `keys` are those of the chunks that were deleted for `context` in this run.
pub open spec fn chunk_keys(
    start: Flow,
    replies: Seq<Reply>,
    n: int,
    context: ConsentTokenWithContext,
    keys: Seq<String>,
) -> bool {
    exists|k: int|
        {
            &&& 0 <= k < n
            &&& #[trigger] asked(start, replies, k) == Some(
                CallView::DeleteChunks {
                    session_id: context.session.id,
                    pseudo_id: context.participant.pseudo_id@,
                },
            )
            &&& replies[k] matches Reply::Keys(deleted) && deleted@ == keys
        }
}

/// `call`, made after `n` replies, touches nothing but the session and the
/// participant of `context`: of the objects, only those of the chunks that were
/// deleted for them.
pub open spec fn concerns(
    start: Flow,
    replies: Seq<Reply>,
    n: int,
    call: CallView,
    context: ConsentTokenWithContext,
) -> bool {
    let session = context.session.id;
    let who = context.participant.pseudo_id@;
    match call {
        CallView::CreateToken { .. } => false,
        CallView::ValidateToken { token } => false,
        CallView::UpdateConsent { participant_id, .. } => participant_id == context.participant.id,
        CallView::UpdateLicense { participant_id, .. } => participant_id == context.participant.id,
        CallView::AppendAudit { entry, .. } => entry.session_id == Some(session) && (
        entry.resource_id == ids::hyphenated_form(context.participant.id.bits) || entry.resource_id
            == ids::hyphenated_form(session.bits) + "/"@ + who),
        CallView::DeleteObjects { keys } => chunk_keys(start, replies, n, context, keys),
        CallView::DeleteChunks { session_id, pseudo_id } => session_id == session && pseudo_id
            == who,
        CallView::DeleteSegments { session_id, pseudo_id } => session_id == session && pseudo_id
            == who,
        CallView::DeleteMuteRanges { session_id, pseudo_id } => session_id == session && pseudo_id
            == who,
        CallView::MarkWiped { session_id, pseudo_id } => session_id == session && pseudo_id == who,
        CallView::LookupGuild { session_id } => session_id == session,
        CallView::Publish { session_id, guild_id, pseudo_id } => session_id == session
            && pseudo_id == who,
        CallView::Begin => true,
        CallView::Commit => true,
    }
}

/// The keys that a wipe has gathered.
spec fn gathered(flow: Flow) -> Option<Seq<String>> {
    match flow {
        Flow::WipingSegments { keys, .. } => Some(keys@),
        Flow::WipingMuteRanges { keys, .. } => Some(keys@),
        Flow::RecordingWipe { keys, .. } => Some(keys@),
        Flow::CommittingWipe { keys, .. } => Some(keys@),
        Flow::MarkingWiped { keys, .. } => Some(keys@),
        Flow::DeletingObjects { keys, .. } => Some(keys@),
        _ => None,
    }
}

/// States in which `context` is worked on.
spec fn works_on(flow: Flow, context: ConsentTokenWithContext) -> bool {
    let patched = PatchTarget {
        session_id: context.session.id,
        participant_id: context.participant.id,
    };
    let wiped = WipeTarget {
        session_id: context.session.id,
        pseudo_id: context.participant.pseudo_id,
    };
    match flow {
        Flow::PatchingScope { target, .. } => target == patched,
        Flow::PatchingLicense { target, .. } => target == patched,
        Flow::RecordingPatch { target, .. } => target == patched,
        Flow::OpeningWipe { target } => target == wiped,
        Flow::WipingChunks { target } => target == wiped,
        Flow::WipingSegments { target, .. } => target == wiped,
        Flow::WipingMuteRanges { target, .. } => target == wiped,
        Flow::RecordingWipe { target, .. } => target == wiped,
        Flow::CommittingWipe { target, .. } => target == wiped,
        Flow::MarkingWiped { target, .. } => target == wiped,
        Flow::DeletingObjects { target, .. } => target == wiped,
        Flow::LookingUpGuild { target } => target == wiped,
        Flow::Announcing { target, .. } => target == wiped,
        _ => false,
    }
}

/// Every call made for the holder of a token, once it was validated, concerns
/// the session and the participant that the token stands for.
pub proof fn law_only_the_tokens_participant_is_touched(
    start: Flow,
    replies: Seq<Reply>,
    n: int,
)
    requires
        is_public_start(start),
        0 <= n <= replies.len(),
    ensures
        asked(start, replies, n) matches Some(call) ==> call is ValidateToken || exists|
            context: ConsentTokenWithContext,
        | #[trigger]
            vouched_for(replies, n, context) && concerns(start, replies, n, call, context),
{
    lemma_works_on_context(start, replies, n);
    let flow = state_at(start, replies, n);
    if flow != start && !(flow is Finished) {
        let context = choose|context: ConsentTokenWithContext| #[trigger]
            vouched_for(replies, n, context) && has_worked_on(start, replies, n, context);
        assert(vouched_for(replies, n, context) && concerns(
            start,
            replies,
            n,
            flow.call()->0,
            context,
        ));
    }
}

/// The run works on `context`, and has gathered keys for it alone.
spec fn has_worked_on(
    start: Flow,
    replies: Seq<Reply>,
    n: int,
    context: ConsentTokenWithContext,
) -> bool {
    let flow = state_at(start, replies, n);
    &&& works_on(flow, context)
    &&& gathered(flow) matches Some(keys) ==> chunk_keys(start, replies, n, context, keys)
}

proof fn lemma_works_on_context(start: Flow, replies: Seq<Reply>, n: int)
    requires
        is_public_start(start),
        0 <= n <= replies.len(),
    ensures
        state_at(start, replies, n) == start || state_at(start, replies, n) is Finished || exists|
            context: ConsentTokenWithContext,
        | #[trigger]
            vouched_for(replies, n, context) && has_worked_on(start, replies, n, context),
    decreases n,
{
    if n > 0 {
        lemma_works_on_context(start, replies, n - 1);
        let before = state_at(start, replies, n - 1);
        let flow = state_at(start, replies, n);
        let reply = replies[n - 1];
        if before == start {
            if let Reply::Validated(Some(context)) = reply {
                assert(vouched_for(replies, n, context));
                assert(flow is Finished || has_worked_on(start, replies, n, context));
            }
        } else if !(before is Finished) {
            let context = choose|context: ConsentTokenWithContext| #[trigger]
                vouched_for(replies, n - 1, context) && has_worked_on(
                start,
                replies,
                n - 1,
                context,
            );
            let k = choose|k: int|
                0 <= k < n - 1 && #[trigger] replies[k] == Reply::Validated(Some(context));
            assert(replies[k] == Reply::Validated(Some(context)));
            assert(vouched_for(replies, n, context));
            if let Some(keys) = gathered(flow) {
                assert(chunk_keys(start, replies, n, context, keys)) by {
                    if before is WipingChunks {
                        assert(asked(start, replies, n - 1) == before.call());
                    } else {
                        assert(gathered(before) == Some(keys));
                        let c = choose|c: int|
                            {
                                &&& 0 <= c < n - 1
                                &&& #[trigger] asked(start, replies, c) == Some(
                                    CallView::DeleteChunks {
                                        session_id: context.session.id,
                                        pseudo_id: context.participant.pseudo_id@,
                                    },
                                )
                                &&& replies[c] matches Reply::Keys(deleted) && deleted@ == keys
                            };
                        assert(asked(start, replies, c) is Some);
                    }
                }
            }
            assert(flow is Finished || has_worked_on(start, replies, n, context));
        }
    }
}

/// A request that changed something succeeds only after an entry was appended
/// to the audit log.
pub proof fn law_success_is_recorded(start: Flow, replies: Seq<Reply>, n: int)
    requires
        is_start(start),
        0 <= n <= replies.len(),
        state_at(start, replies, n) matches Flow::Finished(outcome) && (outcome is TokenCreated
            || outcome is Participant || outcome is NoContent),
    ensures
        recorded(start, replies, n),
{
    lemma_recorded(start, replies, n);
}

/// States that follow the appending of the audit entry.
spec fn past_record(flow: Flow) -> bool {
    ||| flow is CommittingWipe
    ||| past_commit(flow)
    ||| (flow matches Flow::Finished(outcome) && (outcome is TokenCreated
        || outcome is Participant))
}

/// States that follow the commit.
spec fn past_commit(flow: Flow) -> bool {
    ||| flow is MarkingWiped
    ||| flow is DeletingObjects
    ||| flow is LookingUpGuild
    ||| flow is Announcing
    ||| (flow matches Flow::Finished(outcome) && outcome is NoContent)
}

proof fn lemma_recorded(start: Flow, replies: Seq<Reply>, n: int)
    requires
        is_start(start),
        0 <= n <= replies.len(),
    ensures
        past_record(state_at(start, replies, n)) ==> recorded(start, replies, n),
    decreases n,
{
    if n > 0 {
        lemma_recorded(start, replies, n - 1);
        if recorded(start, replies, n - 1) {
            let k = choose|k: int|
                0 <= k < n - 1 && (#[trigger] asked(start, replies, k) matches Some(
                    CallView::AppendAudit { .. },
                )) && replies[k] is Done;
            assert(asked(start, replies, k) is Some);
        } else if past_record(state_at(start, replies, n)) {
            assert(asked(start, replies, n - 1) matches Some(CallView::AppendAudit { .. }));
        }
    }
}

/// Objects are deleted, the participant is marked as wiped, and the wipe is
/// announced only after the transaction was committed. So is it answered.
pub proof fn law_nothing_is_wiped_before_the_commit(start: Flow, replies: Seq<Reply>, n: int)
    requires
        is_start(start),
        0 <= n <= replies.len(),
    ensures
        asked(start, replies, n) matches Some(call) && (call is DeleteObjects || call is MarkWiped
            || call is LookupGuild || call is Publish) ==> committed(start, replies, n),
        state_at(start, replies, n) matches Flow::Finished(Outcome::NoContent) ==> committed(
            start,
            replies,
            n,
        ),
{
    lemma_committed(start, replies, n);
}

proof fn lemma_committed(start: Flow, replies: Seq<Reply>, n: int)
    requires
        is_start(start),
        0 <= n <= replies.len(),
    ensures
        past_commit(state_at(start, replies, n)) ==> committed(start, replies, n),
    decreases n,
{
    if n > 0 {
        lemma_committed(start, replies, n - 1);
        if committed(start, replies, n - 1) {
            let k = choose|k: int|
                0 <= k < n - 1 && #[trigger] asked(start, replies, k) == Some(CallView::Commit)
                    && replies[k] is Done;
            assert(asked(start, replies, k) is Some);
        } else if past_commit(state_at(start, replies, n)) {
            assert(asked(start, replies, n - 1) == Some(CallView::Commit));
        }
    }
}

/// A failed call ends the request with that failure, unless the call was to
/// delete objects or to announce.
pub proof fn law_failure_is_passed_on(flow: Flow, error: AppError)
    requires
        flow.call() is Some,
        !(flow is DeletingObjects || flow is Announcing),
    ensures
        flow.after(Reply::Failed(error)) == Flow::Finished(Outcome::Failed(error)),
{
}

/// Objects that could not be deleted, and an announcement that nobody heard, do
/// not change how a wipe goes on.
pub proof fn law_leftover_objects_do_not_fail_a_wipe(flow: Flow, error: AppError)
    requires
        flow is DeletingObjects || flow is Announcing,
    ensures
        flow.after(Reply::Failed(error)) == flow.after(Reply::Done),
{
}

/// An answered request stays answered.
pub proof fn law_answer_is_final(start: Flow, replies: Seq<Reply>, k: int, n: int)
    requires
        0 <= k <= n,
        state_at(start, replies, k) is Finished,
    ensures
        state_at(start, replies, n) == state_at(start, replies, k),
    decreases n,
{
    if k < n {
        law_answer_is_final(start, replies, k, n - 1);
    }
}

/// The course of a token's creation.
pub open spec fn creation_script(
    service_name: String,
    input: CreateTokenRequest,
    created: ConsentToken,
) -> Script {
    seq![
        (
            CallView::CreateToken {
                session_id: input.session_id,
                participant_id: input.participant_id,
                pseudo_id: input.pseudo_id@,
            },
            Reply::TokenCreated(created),
        ),
        (
            CallView::AppendAudit {
                entry: consent::creation_entry(service_name@, input, created),
                in_transaction: false,
            },
            Reply::Done,
        ),
    ]
}

/// A token is created and recorded, and answered with when it expires.
pub proof fn law_creation_takes_its_course(
    service_name: String,
    input: CreateTokenRequest,
    created: ConsentToken,
)
    ensures
        follows(
            Flow::Creating { service_name, input },
            creation_script(service_name, input, created),
            Flow::Finished(
                Outcome::TokenCreated { token: created.token, expires_at: created.expires_at },
            ),
        ),
{
    let start = Flow::Creating { service_name, input };
    let replies = replies_of(creation_script(service_name, input, created));
    assert(state_at(start, replies, 0) == start);
    assert(state_at(start, replies, 1) == (Flow::RecordingCreation {
        service_name,
        input,
        created,
    }));
    assert(state_at(start, replies, 2) is Finished);
}

/// A valid token is answered with its context.
pub proof fn law_reading_takes_its_course(token: Uuid, context: ConsentTokenWithContext)
    ensures
        follows(
            Flow::Reading { token },
            seq![(CallView::ValidateToken { token }, Reply::Validated(Some(context)))],
            Flow::Finished(Outcome::Context(context)),
        ),
{
    let script = seq![(CallView::ValidateToken { token }, Reply::Validated(Some(context)))];
    let replies = replies_of(script);
    assert(state_at(Flow::Reading { token }, replies, 0) == (Flow::Reading { token }));
    assert(state_at(Flow::Reading { token }, replies, 1) is Finished);
}

/// The scope is written, if one is given; `scoped` is the row that this leaves.
pub open spec fn scope_script(input: PatchConsent, participant_id: Uuid, scoped: Participant) -> Script {
    match input.consent_scope {
        Some(scope) => seq![
            (
                CallView::UpdateConsent {
                    participant_id,
                    consent_scope: scope@,
                    consented_at: None,
                },
                Reply::Participant(scoped),
            ),
        ],
        None => seq![],
    }
}

/// The licence flags are written, if one is given; `licensed` is the row that
/// this leaves.
pub open spec fn license_script(
    input: PatchConsent,
    participant_id: Uuid,
    licensed: Participant,
) -> Script {
    if input.no_llm_training is Some || input.no_public_release is Some {
        seq![
            (
                CallView::UpdateLicense {
                    participant_id,
                    no_llm_training: input.no_llm_training,
                    no_public_release: input.no_public_release,
                },
                Reply::Participant(licensed),
            ),
        ]
    } else {
        seq![]
    }
}

/// The participant as the last write of a patch left it.
pub open spec fn patched(
    input: PatchConsent,
    participant: Participant,
    scoped: Participant,
    licensed: Participant,
) -> Participant {
    if input.no_llm_training is Some || input.no_public_release is Some {
        licensed
    } else if input.consent_scope is Some {
        scoped
    } else {
        participant
    }
}

/// The course of a patch.
pub open spec fn patch_script(
    token: Uuid,
    input: PatchConsent,
    context: ConsentTokenWithContext,
    scoped: Participant,
    licensed: Participant,
) -> Script {
    let target = PatchTarget {
        session_id: context.session.id,
        participant_id: context.participant.id,
    };
    let updated = patched(input, context.participant, scoped, licensed);
    seq![(CallView::ValidateToken { token }, Reply::Validated(Some(context)))] + scope_script(
        input,
        target.participant_id,
        scoped,
    ) + license_script(input, target.participant_id, licensed) + seq![
        (
            CallView::AppendAudit {
                entry: consent::patch_entry(target, updated, input),
                in_transaction: false,
            },
            Reply::Done,
        ),
    ]
}

/// A patch writes the scope if and only if one is given, then the licence flags
/// if and only if one is given, then records the request, and is answered with
/// the participant as the last write left it: without any, as it was.
pub proof fn law_patch_takes_its_course(
    token: Uuid,
    input: PatchConsent,
    context: ConsentTokenWithContext,
    scoped: Participant,
    licensed: Participant,
)
    ensures
        follows(
            Flow::ValidatingPatch { token, input },
            patch_script(token, input, context, scoped, licensed),
            Flow::Finished(
                Outcome::Participant(patched(input, context.participant, scoped, licensed)),
            ),
        ),
{
    let start = Flow::ValidatingPatch { token, input };
    let script = patch_script(token, input, context, scoped, licensed);
    let replies = replies_of(script);
    assert(state_at(start, replies, 0) == start);
    assert(script[0].1 == Reply::Validated(Some(context)));
    assert(state_at(start, replies, 1) == start.after(replies[0]));
    assert(state_at(start, replies, 2) == state_at(start, replies, 1).after(replies[1]));
    if script.len() > 2 {
        assert(state_at(start, replies, 3) == state_at(start, replies, 2).after(replies[2]));
    }
    if script.len() > 3 {
        assert(state_at(start, replies, 4) == state_at(start, replies, 3).after(replies[3]));
    }
}

/// The course of a wipe up to the marking of the participant.
pub open spec fn wipe_opening(
    token: Uuid,
    context: ConsentTokenWithContext,
    keys: Vec<String>,
) -> Script {
    let session_id = context.session.id;
    let pseudo_id = context.participant.pseudo_id@;
    let target = WipeTarget { session_id, pseudo_id: context.participant.pseudo_id };
    seq![
        (CallView::ValidateToken { token }, Reply::Validated(Some(context))),
        (CallView::Begin, Reply::Done),
        (CallView::DeleteChunks { session_id, pseudo_id }, Reply::Keys(keys)),
        (CallView::DeleteSegments { session_id, pseudo_id }, Reply::Done),
        (CallView::DeleteMuteRanges { session_id, pseudo_id }, Reply::Done),
        (
            CallView::AppendAudit {
                entry: consent::wipe_entry(target, keys@.len()),
                in_transaction: true,
            },
            Reply::Done,
        ),
        (CallView::Commit, Reply::Done),
        (CallView::MarkWiped { session_id, pseudo_id }, Reply::Done),
    ]
}

/// The course of a wipe. Objects are deleted only where there are any, and
/// `deleted`, how that went, does not matter.
pub open spec fn wipe_script(
    token: Uuid,
    context: ConsentTokenWithContext,
    keys: Vec<String>,
    deleted: Reply,
    guild_id: i64,
) -> Script {
    let session_id = context.session.id;
    let pseudo_id = context.participant.pseudo_id@;
    wipe_opening(token, context, keys) + (if keys@.len() == 0 {
        seq![]
    } else {
        seq![(CallView::DeleteObjects { keys: keys@ }, deleted)]
    }) + seq![
        (CallView::LookupGuild { session_id }, Reply::GuildId(guild_id)),
        (CallView::Publish { session_id, guild_id, pseudo_id }, Reply::Done),
    ]
}

/// A wipe deletes the rows and records it in one transaction, marks the
/// participant, deletes the objects of the chunks, and announces the wipe.
pub proof fn law_wipe_takes_its_course(
    token: Uuid,
    context: ConsentTokenWithContext,
    keys: Vec<String>,
    deleted: Reply,
    guild_id: i64,
)
    requires
        deleted is Done || deleted is Failed,
    ensures
        follows(
            Flow::ValidatingWipe { token },
            wipe_script(token, context, keys, deleted, guild_id),
            Flow::Finished(Outcome::NoContent),
        ),
{
    let start = Flow::ValidatingWipe { token };
    let script = wipe_script(token, context, keys, deleted, guild_id);
    let opening = wipe_opening(token, context, keys);
    let replies = replies_of(script);
    assert forall|k: int| 0 <= k < 8 implies #[trigger] script[k] == opening[k] by {}
    assert(state_at(start, replies, 0) == start);
    assert(script[0] == opening[0]);
    assert(state_at(start, replies, 1) is OpeningWipe);
    assert(script[1] == opening[1]);
    assert(state_at(start, replies, 2) is WipingChunks);
    assert(script[2] == opening[2]);
    assert(state_at(start, replies, 3) is WipingSegments);
    assert(script[3] == opening[3]);
    assert(state_at(start, replies, 4) is WipingMuteRanges);
    assert(script[4] == opening[4]);
    assert(state_at(start, replies, 5) is RecordingWipe);
    assert(script[5] == opening[5]);
    assert(state_at(start, replies, 6) is CommittingWipe);
    assert(script[6] == opening[6]);
    assert(state_at(start, replies, 7) is MarkingWiped);
    assert(script[7] == opening[7]);
    assert(state_at(start, replies, 8) == state_at(start, replies, 7).after(replies[7]));
    assert(state_at(start, replies, 9) == state_at(start, replies, 8).after(replies[8]));
    assert(state_at(start, replies, 10) == state_at(start, replies, 9).after(replies[9]));
    if keys@.len() > 0 {
        assert(state_at(start, replies, 11) == state_at(start, replies, 10).after(replies[10]));
    }
}

/// Each call so far got a reply to it.
pub open spec fn all_fit(start: Flow, replies: Seq<Reply>, n: int) -> bool {
    forall|k: int|
        0 <= k < n ==> (#[trigger] asked(start, replies, k) matches Some(call) ==> fits(
            call,
            replies[k],
        ))
}

/// How many of the calls that the first `n` replies answer announced a wipe.
pub open spec fn announcements(start: Flow, replies: Seq<Reply>, n: int) -> nat
    decreases n,
{
    if n <= 0 {
        0
    } else if asked(start, replies, n - 1) matches Some(CallView::Publish { .. }) {
        announcements(start, replies, n - 1) + 1
    } else {
        announcements(start, replies, n - 1)
    }
}

/// A wipe is announced exactly when it succeeds, and then once; nothing else is
/// announced.
pub proof fn law_wipe_is_announced_once_if_it_succeeds(
    start: Flow,
    replies: Seq<Reply>,
    n: int,
)
    requires
        is_start(start),
        0 <= n <= replies.len(),
        all_fit(start, replies, n),
    ensures
        announcements(start, replies, n) == (if state_at(start, replies, n) == Flow::Finished(
            Outcome::NoContent,
        ) {
            1nat
        } else {
            0nat
        }),
        announcements(start, replies, n) > 0 ==> start is ValidatingWipe,
    decreases n,
{
    if n > 0 {
        assert(asked(start, replies, n - 1) == state_at(start, replies, n - 1).call());
        law_wipe_is_announced_once_if_it_succeeds(start, replies, n - 1);
        lemma_only_a_wipe_announces(start, replies, n - 1);
    }
}

/// States of a wipe that was let through.
spec fn is_wiping(flow: Flow) -> bool {
    ||| flow is OpeningWipe
    ||| flow is WipingChunks
    ||| flow is WipingSegments
    ||| flow is WipingMuteRanges
    ||| flow is RecordingWipe
    ||| flow is CommittingWipe
    ||| past_commit(flow)
}

proof fn lemma_only_a_wipe_announces(start: Flow, replies: Seq<Reply>, n: int)
    requires
        is_start(start),
        0 <= n <= replies.len(),
    ensures
        is_wiping(state_at(start, replies, n)) ==> start is ValidatingWipe,
        state_at(start, replies, n) is ValidatingWipe ==> start is ValidatingWipe,
    decreases n,
{
    if n > 0 {
        lemma_only_a_wipe_announces(start, replies, n - 1);
    }
}


/// The view of a call shows all that the call asks for, as it is held.
pub proof fn law_view_of_a_call(call: Call)
    ensures
        call@ == (match call {
            Call::CreateToken { session_id, participant_id, pseudo_id } => CallView::CreateToken {
                session_id,
                participant_id,
                pseudo_id: pseudo_id.text@,
            },
            Call::ValidateToken { token } => CallView::ValidateToken { token },
            Call::UpdateConsent { participant_id, update } => CallView::UpdateConsent {
                participant_id,
                consent_scope: update.consent_scope@,
                consented_at: update.consented_at,
            },
            Call::UpdateLicense { participant_id, update } => CallView::UpdateLicense {
                participant_id,
                no_llm_training: update.no_llm_training,
                no_public_release: update.no_public_release,
            },
            Call::AppendAudit { entry, in_transaction } => CallView::AppendAudit {
                entry: entry@,
                in_transaction,
            },
            Call::Begin => CallView::Begin,
            Call::DeleteChunks { session_id, pseudo_id } => CallView::DeleteChunks {
                session_id,
                pseudo_id: pseudo_id.text@,
            },
            Call::DeleteSegments { session_id, pseudo_id } => CallView::DeleteSegments {
                session_id,
                pseudo_id: pseudo_id.text@,
            },
            Call::DeleteMuteRanges { session_id, pseudo_id } => CallView::DeleteMuteRanges {
                session_id,
                pseudo_id: pseudo_id.text@,
            },
            Call::Commit => CallView::Commit,
            Call::MarkWiped { session_id, pseudo_id } => CallView::MarkWiped {
                session_id,
                pseudo_id: pseudo_id.text@,
            },
            Call::DeleteObjects { keys } => CallView::DeleteObjects { keys: keys@ },
            Call::LookupGuild { session_id } => CallView::LookupGuild { session_id },
            Call::Publish { event } => CallView::Publish {
                session_id: event.session_id,
                guild_id: event.guild_id,
                pseudo_id: event.pseudo_id.text@,
            },
        }),
{
}

/// A token is asked for as the request says; once it is there, the service is
/// recorded to have created it for the person and the session of the request;
/// once that is done, the request is answered with the token and its expiry.
pub proof fn law_creation_is_as_requested(
    service_name: String,
    input: CreateTokenRequest,
    created: ConsentToken,
)
    ensures
        ({
            let start = Flow::Creating { service_name, input };
            let recording = start.after(Reply::TokenCreated(created));
            &&& start.call() == Some(
                CallView::CreateToken {
                    session_id: input.session_id,
                    participant_id: input.participant_id,
                    pseudo_id: input.pseudo_id.text@,
                },
            )
            &&& recording.call() matches Some(CallView::AppendAudit { entry, in_transaction })
            &&& !in_transaction
            &&& entry.actor_service == service_name@
            &&& entry.actor_pseudo == Some(input.pseudo_id.text@)
            &&& entry.session_id == Some(input.session_id)
            &&& entry.resource_type == "consent_token"@
            &&& entry.resource_id == ids::hyphenated_form(created.token.bits)
            &&& entry.action == "created"@
            &&& entry.detail is None
            &&& recording.after(Reply::Done) == Flow::Finished(
                Outcome::TokenCreated { token: created.token, expires_at: created.expires_at },
            )
        }),
{
}

/// The holder of a token is shown what it stands for if it is valid, and told
/// that it is missing if it is not.
pub proof fn law_reading_shows_the_context(token: Uuid, context: ConsentTokenWithContext)
    ensures
        ({
            let start = Flow::Reading { token };
            &&& start.call() == Some(CallView::ValidateToken { token })
            &&& start.after(Reply::Validated(Some(context))) == Flow::Finished(
                Outcome::Context(context),
            )
            &&& start.after(Reply::Validated(None)) == Flow::Finished(Outcome::TokenMissing)
        }),
{
}

/// A patch of an invalid token is refused. One of a valid token writes the scope
/// if and only if it is given, then the flags if and only if one of them is
/// given, both for the participant that the token stands for; then it records
/// what was asked; and it is answered with the participant as the last write, if
/// there was any, left it.
pub proof fn law_patch_is_as_requested(
    token: Uuid,
    input: PatchConsent,
    context: ConsentTokenWithContext,
    scoped: Participant,
    licensed: Participant,
)
    ensures
        ({
            let start = Flow::ValidatingPatch { token, input };
            let flags = input.no_llm_training is Some || input.no_public_release is Some;
            let validated = start.after(Reply::Validated(Some(context)));
            let past_scope = if input.consent_scope is Some {
                validated.after(Reply::Participant(scoped))
            } else {
                validated
            };
            let recording = if flags {
                past_scope.after(Reply::Participant(licensed))
            } else {
                past_scope
            };
            let updated = if flags {
                licensed
            } else if input.consent_scope is Some {
                scoped
            } else {
                context.participant
            };
            &&& start.call() == Some(CallView::ValidateToken { token })
            &&& start.after(Reply::Validated(None)) == Flow::Finished(Outcome::TokenMissing)
            &&& input.consent_scope matches Some(scope) ==> validated.call() == Some(
                CallView::UpdateConsent {
                    participant_id: context.participant.id,
                    consent_scope: scope@,
                    consented_at: None,
                },
            )
            &&& flags ==> past_scope.call() == Some(
                CallView::UpdateLicense {
                    participant_id: context.participant.id,
                    no_llm_training: input.no_llm_training,
                    no_public_release: input.no_public_release,
                },
            )
            &&& recording.call() matches Some(CallView::AppendAudit { entry, in_transaction })
            &&& !in_transaction
            &&& entry.actor_service == "consent_token"@
            &&& entry.actor_pseudo == Some(updated.pseudo_id.text@)
            &&& entry.session_id == Some(context.session.id)
            &&& entry.resource_type == "participant"@
            &&& entry.resource_id == ids::hyphenated_form(context.participant.id.bits)
            &&& entry.action == "consent_patched_via_token"@
            &&& entry.detail matches Some(detail)
            &&& detail.len() == 3
            &&& detail[0].name == "consent_scope"@
            &&& detail[0].value == (match input.consent_scope {
                Some(scope) => audit_log::ScalarView::Text(scope@),
                None => audit_log::ScalarView::Null,
            })
            &&& detail[1].name == "no_llm_training"@
            &&& detail[1].value == (match input.no_llm_training {
                Some(flag) => audit_log::ScalarView::Bool(flag),
                None => audit_log::ScalarView::Null,
            })
            &&& detail[2].name == "no_public_release"@
            &&& detail[2].value == (match input.no_public_release {
                Some(flag) => audit_log::ScalarView::Bool(flag),
                None => audit_log::ScalarView::Null,
            })
            &&& recording.after(Reply::Done) == Flow::Finished(Outcome::Participant(updated))
        }),
{
}

/// A wipe of an invalid token is refused. One of a valid token deletes, in one
/// transaction, the chunks, segments and mute ranges of the participant in the
/// session that the token stands for, and records how many chunks there were;
/// after the commit the participant is marked, the chunks' objects are deleted if
/// there are any, and the wipe is announced with the session's guild.
pub proof fn law_wipe_is_of_the_tokens_participant(
    token: Uuid,
    context: ConsentTokenWithContext,
    keys: Vec<String>,
    error: AppError,
    guild_id: i64,
)
    ensures
        ({
            let session_id = context.session.id;
            let pseudo_id = context.participant.pseudo_id.text@;
            let start = Flow::ValidatingWipe { token };
            let opening = start.after(Reply::Validated(Some(context)));
            let chunks = opening.after(Reply::Done);
            let segments = chunks.after(Reply::Keys(keys));
            let mutes = segments.after(Reply::Done);
            let recording = mutes.after(Reply::Done);
            let committing = recording.after(Reply::Done);
            let marking = committing.after(Reply::Done);
            let marked = marking.after(Reply::Done);
            let lookup = if keys@.len() == 0 {
                marked
            } else {
                marked.after(Reply::Done)
            };
            let announcing = lookup.after(Reply::GuildId(guild_id));
            &&& start.call() == Some(CallView::ValidateToken { token })
            &&& start.after(Reply::Validated(None)) == Flow::Finished(Outcome::TokenMissing)
            &&& opening.call() == Some(CallView::Begin)
            &&& chunks.call() == Some(CallView::DeleteChunks { session_id, pseudo_id })
            &&& segments.call() == Some(CallView::DeleteSegments { session_id, pseudo_id })
            &&& mutes.call() == Some(CallView::DeleteMuteRanges { session_id, pseudo_id })
            &&& committing.call() == Some(CallView::Commit)
            &&& marking.call() == Some(CallView::MarkWiped { session_id, pseudo_id })
            &&& keys@.len() > 0 ==> marked.call() == Some(CallView::DeleteObjects { keys: keys@ })
            &&& keys@.len() > 0 ==> marked.after(Reply::Failed(error)) == lookup
            &&& lookup.call() == Some(CallView::LookupGuild { session_id })
            &&& announcing.call() == Some(CallView::Publish { session_id, guild_id, pseudo_id })
            &&& announcing.after(Reply::Done) == Flow::Finished(Outcome::NoContent)
            &&& announcing.after(Reply::Failed(error)) == Flow::Finished(Outcome::NoContent)
            &&& recording.call() matches Some(CallView::AppendAudit { entry, in_transaction })
            &&& in_transaction
            &&& entry.actor_service == "consent_token"@
            &&& entry.actor_pseudo == Some(pseudo_id)
            &&& entry.session_id == Some(session_id)
            &&& entry.resource_type == "participant_audio"@
            &&& entry.resource_id == ids::hyphenated_form(session_id.bits) + "/"@ + pseudo_id
            &&& entry.action == "wiped_via_token"@
            &&& entry.detail matches Some(detail)
            &&& detail.len() == 1
            &&& detail[0].name == "chunk_count"@
            &&& detail[0].value == audit_log::ScalarView::Count(keys@.len())
        }),
{
}

/// What a validation gave is what is replied: what it found, or its failure.
pub proof fn law_validation_is_replied(
    result: Result<Option<ConsentTokenWithContext>, AppError>,
)
    ensures
        result matches Ok(context) ==> consent::validation_reply(result) == Reply::Validated(
            context,
        ),
        result matches Err(error) ==> consent::validation_reply(result) == Reply::Failed(error),
{
}

/// How each outcome is answered. A missing token is answered as not found.
pub proof fn law_outcome_is_answered(outcome: Outcome, answer: Result<Response, AppError>)
    requires
        consent::answers(outcome, answer),
    ensures
        outcome matches Outcome::TokenCreated { token, expires_at } ==> answer == Ok::<
            Response,
            AppError,
        >(Response::TokenCreated { token, expires_at }),
        outcome matches Outcome::Context(context) ==> answer == Ok::<Response, AppError>(
            Response::Context(context),
        ),
        outcome matches Outcome::Participant(participant) ==> answer == Ok::<Response, AppError>(
            Response::Participant(participant),
        ),
        outcome is NoContent ==> answer == Ok::<Response, AppError>(Response::NoContent),
        outcome is TokenMissing ==> (answer matches Err(AppError::NotFound(message)) && message@
            == "consent token not found or expired"@),
        outcome matches Outcome::Failed(error) ==> answer == Err::<Response, AppError>(error),
{
}

} // verus!
