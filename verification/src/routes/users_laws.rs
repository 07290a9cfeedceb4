//! What holds of every run of the user flows.

use vstd::prelude::*;

use crate::db::audit_log;
use crate::db::display_names::{DisplayName, UpsertDisplayName};
use crate::db::users::{UpsertUser, User};
use crate::error::AppError;
use crate::ids::PseudoId;
use crate::routes::users;
use crate::routes::users::{Call, CallView, Flow, PatchUserRequest, Reply, Response};

verus! {

/// The state of a flow that was at `start`, after the first `k` of `replies`.
pub open spec fn state_at(start: Flow, replies: Seq<Reply>, k: int) -> Flow
    decreases k,
{
    if k <= 0 {
        start
    } else {
        state_at(start, replies, k - 1).after(replies[k - 1])
    }
}

/// The call to which `replies[k]` is the reply.
pub open spec fn asked(start: Flow, replies: Seq<Reply>, k: int) -> Option<CallView> {
    state_at(start, replies, k).call()
}

/// A course that a flow may take: the calls, each with its reply.
pub type Script = Seq<(CallView, Reply)>;

/// The replies of a script.
pub open spec fn replies_of(script: Script) -> Seq<Reply> {
    script.map_values(|exchange: (CallView, Reply)| exchange.1)
}

/// A flow at `start` that gets the replies of the script makes the calls of the
/// script, in order, and no others, and ends with `answer`.
pub open spec fn follows(start: Flow, script: Script, answer: Response) -> bool {
    &&& forall|k: int|
        0 <= k < script.len() ==> #[trigger] asked(start, replies_of(script), k) == Some(
            script[k].0,
        )
    &&& state_at(start, replies_of(script), script.len() as int) == Flow::Finished(Ok(answer))
}

/// The first state of a handler that changes something.
pub open spec fn is_writing_start(flow: Flow) -> bool {
    ||| flow is Upserting
    ||| flow is ParsingForPost
    ||| flow is ParsingForPatch
}

/// The text in the request's path was found to be a pseudonym.
pub open spec fn named(replies: Seq<Reply>, n: int) -> bool {
    exists|k: int| 0 <= k < n && (#[trigger] replies[k] is PseudoId)
}

/// An entry was appended to the audit log.
pub open spec fn recorded(start: Flow, replies: Seq<Reply>, n: int) -> bool {
    exists|k: int|
        0 <= k < n && (#[trigger] asked(start, replies, k) matches Some(CallView::AppendAudit { .. }))
            && replies[k] is Done
}

/// The transaction was committed.
pub open spec fn committed(start: Flow, replies: Seq<Reply>, n: int) -> bool {
    exists|k: int|
        0 <= k < n && #[trigger] asked(start, replies, k) == Some(CallView::Commit)
            && replies[k] is Done
}

/// How many replies a flow may still need.
pub open spec fn remaining(flow: Flow) -> nat {
    match flow {
        Flow::Upserting { .. } => 2,
        Flow::RecordingUpsert { .. } => 1,
        Flow::ParsingForFetch { .. } => 3,
        Flow::Fetching { .. } => 2,
        Flow::FetchingNames { .. } => 1,
        Flow::ParsingForPost { .. } => 4,
        Flow::EnsuringUser { .. } => 3,
        Flow::Posting { .. } => 2,
        Flow::RecordingName { .. } => 1,
        Flow::ParsingForNames { .. } => 2,
        Flow::ListingNames { .. } => 1,
        Flow::ListingUsers => 1,
        Flow::ParsingForPatch { .. } => 5,
        Flow::OpeningPatch { .. } => 4,
        Flow::SettingAdmin { .. } => 3,
        Flow::RecordingAdmin { .. } => 2,
        Flow::CommittingPatch { .. } => 1,
        Flow::Finished(_) => 0,
    }
}

/// `reply` is one to `call`: a failure, or what the call yields.
pub open spec fn fits(call: CallView, reply: Reply) -> bool {
    ||| reply is Failed
    ||| match call {
        CallView::ParsePseudoId { .. } => reply is PseudoId,
        CallView::UpsertUser { .. } => reply is User,
        CallView::GetUser { .. } => reply is User,
        CallView::SetAdmin { .. } => reply is User,
        CallView::ListUsers => reply is Users,
        CallView::UpsertDisplayName { .. } => reply is DisplayName,
        CallView::ListDisplayNames { .. } => reply is DisplayNames,
        _ => reply is Done,
    }
}

/// Every reply to the pending call brings the flow closer to its end; any other
/// reply changes nothing.
pub proof fn law_replies_lead_to_an_answer(flow: Flow, reply: Reply)
    ensures
        flow.call() is None <==> flow is Finished,
        match flow.call() {
            Some(call) => if fits(call, reply) {
                remaining(flow.after(reply)) < remaining(flow)
            } else {
                flow.after(reply) == flow
            },
            None => flow.after(reply) == flow,
        },
{
}

/// A failed call ends the request with that failure.
pub proof fn law_failure_is_passed_on(flow: Flow, error: AppError)
    requires
        flow.call() is Some,
    ensures
        flow.after(Reply::Failed(error)) == Flow::Finished(Err(error)),
{
}

/// An answered request stays answered.
pub proof fn law_answer_is_final(start: Flow, replies: Seq<Reply>, k: int, n: int)
    requires
        0 <= k <= n,
        state_at(start, replies, k) is Finished,
    ensures
        state_at(start, replies, n) == state_at(start, replies, k),
    decreases n,
{
    if k < n {
        law_answer_is_final(start, replies, k, n - 1);
    }
}

/// Where the path of a request names a user, nothing is called before the name
/// was found to be a pseudonym.
pub proof fn law_nothing_is_touched_without_a_pseudonym(
    start: Flow,
    replies: Seq<Reply>,
    n: int,
)
    requires
        start is ParsingForFetch || start is ParsingForPost || start is ParsingForNames
            || start is ParsingForPatch,
        0 <= n <= replies.len(),
    ensures
        asked(start, replies, n) matches Some(call) && !(call is ParsePseudoId) ==> named(
            replies,
            n,
        ),
{
    lemma_before_named(start, replies, n);
}

proof fn lemma_before_named(start: Flow, replies: Seq<Reply>, n: int)
    requires
        start is ParsingForFetch || start is ParsingForPost || start is ParsingForNames
            || start is ParsingForPatch,
        0 <= n <= replies.len(),
    ensures
        named(replies, n) || state_at(start, replies, n) == start || state_at(
            start,
            replies,
            n,
        ) is Finished,
    decreases n,
{
    if n > 0 {
        lemma_before_named(start, replies, n - 1);
        if named(replies, n - 1) {
            let k = choose|k: int| 0 <= k < n - 1 && (#[trigger] replies[k] is PseudoId);
            assert(replies[k] is PseudoId);
        } else if !named(replies, n) {
            assert(!(replies[n - 1] is PseudoId));
        }
    }
}

/// Where something is changed: states that follow the appending of the audit
/// entry.
spec fn past_record(flow: Flow) -> bool {
    flow is CommittingPatch || succeeded(flow)
}

/// Handlers that only read.
spec fn is_reading(flow: Flow) -> bool {
    ||| flow is ParsingForFetch
    ||| flow is Fetching
    ||| flow is FetchingNames
    ||| flow is ParsingForNames
    ||| flow is ListingNames
    ||| flow is ListingUsers
}

/// States in which the request succeeded.
spec fn succeeded(flow: Flow) -> bool {
    flow matches Flow::Finished(Ok(_))
}

/// A request that changed something succeeds only after an entry was appended
/// to the audit log.
pub proof fn law_success_is_recorded(start: Flow, replies: Seq<Reply>, n: int)
    requires
        is_writing_start(start),
        0 <= n <= replies.len(),
        state_at(start, replies, n) matches Flow::Finished(Ok(_)),
    ensures
        recorded(start, replies, n),
{
    lemma_recorded(start, replies, n);
}

proof fn lemma_recorded(start: Flow, replies: Seq<Reply>, n: int)
    requires
        is_writing_start(start),
        0 <= n <= replies.len(),
    ensures
        !is_reading(state_at(start, replies, n)),
        past_record(state_at(start, replies, n)) ==> recorded(start, replies, n),
    decreases n,
{
    if n > 0 {
        lemma_recorded(start, replies, n - 1);
        if recorded(start, replies, n - 1) {
            let k = choose|k: int|
                0 <= k < n - 1 && (#[trigger] asked(start, replies, k) matches Some(
                    CallView::AppendAudit { .. },
                )) && replies[k] is Done;
            assert(asked(start, replies, k) is Some);
        } else if past_record(state_at(start, replies, n)) {
            assert(asked(start, replies, n - 1) matches Some(CallView::AppendAudit { .. }));
        }
    }
}

/// A change of admin rights is committed only together with its audit entry,
/// and is answered only after the commit.
pub proof fn law_admin_change_is_recorded_and_committed(
    start: Flow,
    replies: Seq<Reply>,
    n: int,
)
    requires
        start is ParsingForPatch,
        0 <= n <= replies.len(),
    ensures
        asked(start, replies, n) == Some(CallView::Commit) ==> recorded(start, replies, n),
        state_at(start, replies, n) matches Flow::Finished(Ok(_)) ==> committed(
            start,
            replies,
            n,
        ),
{
    lemma_recorded(start, replies, n);
    lemma_committed(start, replies, n);
}

proof fn lemma_committed(start: Flow, replies: Seq<Reply>, n: int)
    requires
        start is ParsingForPatch,
        0 <= n <= replies.len(),
    ensures
        ({
            let flow = state_at(start, replies, n);
            ||| flow is ParsingForPatch
            ||| flow is OpeningPatch
            ||| flow is SettingAdmin
            ||| flow is RecordingAdmin
            ||| flow is CommittingPatch
            ||| flow is Finished
        }),
        succeeded(state_at(start, replies, n)) ==> committed(start, replies, n),
    decreases n,
{
    if n > 0 {
        lemma_committed(start, replies, n - 1);
        if committed(start, replies, n - 1) {
            let k = choose|k: int|
                0 <= k < n - 1 && #[trigger] asked(start, replies, k) == Some(CallView::Commit)
                    && replies[k] is Done;
            assert(asked(start, replies, k) is Some);
        } else if succeeded(state_at(start, replies, n)) {
            assert(asked(start, replies, n - 1) == Some(CallView::Commit));
        }
    }
}

/// A user is upserted, and the upsert recorded.
pub proof fn law_upsert_takes_its_course(service_name: String, input: UpsertUser, user: User)
    ensures
        follows(
            Flow::Upserting { service_name, input },
            seq![
                (CallView::UpsertUser { pseudo_id: input.pseudo_id@ }, Reply::User(user)),
                (
                    CallView::AppendAudit {
                        entry: users::upsert_entry(service_name@, input.pseudo_id@),
                        in_transaction: false,
                    },
                    Reply::Done,
                ),
            ],
            Response::User(user),
        ),
{
    let start = Flow::Upserting { service_name, input };
    let script = seq![
        (CallView::UpsertUser { pseudo_id: input.pseudo_id@ }, Reply::User(user)),
        (
            CallView::AppendAudit {
                entry: users::upsert_entry(service_name@, input.pseudo_id@),
                in_transaction: false,
            },
            Reply::Done,
        ),
    ];
    let replies = replies_of(script);
    assert(state_at(start, replies, 0) == start);
    assert(state_at(start, replies, 1) is RecordingUpsert);
    assert(state_at(start, replies, 2) is Finished);
}

/// The course of fetching a user.
pub open spec fn fetch_script(
    raw: String,
    pseudo_id: PseudoId,
    user: User,
    names: Vec<DisplayName>,
) -> Script {
    seq![
        (CallView::ParsePseudoId { raw: raw@ }, Reply::PseudoId(pseudo_id)),
        (CallView::GetUser { pseudo_id: pseudo_id@ }, Reply::User(user)),
        (CallView::ListDisplayNames { pseudo_id: pseudo_id@ }, Reply::DisplayNames(names)),
    ]
}

/// A user is shown with the name that stands first in the list of names.
pub proof fn law_fetch_takes_its_course(
    raw: String,
    pseudo_id: PseudoId,
    user: User,
    names: Vec<DisplayName>,
)
    ensures
        follows(
            Flow::ParsingForFetch { raw },
            fetch_script(raw, pseudo_id, user, names),
            Response::Profile { user, latest_display_name: users::first_name(names@) },
        ),
{
    let start = Flow::ParsingForFetch { raw };
    let replies = replies_of(fetch_script(raw, pseudo_id, user, names));
    assert(state_at(start, replies, 0) == start);
    assert(state_at(start, replies, 1) is Fetching);
    assert(state_at(start, replies, 2) is FetchingNames);
    assert(state_at(start, replies, 3) is Finished);
}

/// The course of noting a name.
pub open spec fn post_script(
    service_name: String,
    raw: String,
    input: UpsertDisplayName,
    pseudo_id: PseudoId,
    user: User,
    row: DisplayName,
) -> Script {
    seq![
        (CallView::ParsePseudoId { raw: raw@ }, Reply::PseudoId(pseudo_id)),
        (CallView::UpsertUser { pseudo_id: pseudo_id@ }, Reply::User(user)),
        (
            CallView::UpsertDisplayName { pseudo_id: pseudo_id@, input: input.body@ },
            Reply::DisplayName(row),
        ),
        (
            CallView::AppendAudit {
                entry: users::name_entry(service_name@, pseudo_id@, row),
                in_transaction: false,
            },
            Reply::Done,
        ),
    ]
}

/// A name is noted for a user who is in the directory by then, and the sighting
/// is recorded.
pub proof fn law_post_takes_its_course(
    service_name: String,
    raw: String,
    input: UpsertDisplayName,
    pseudo_id: PseudoId,
    user: User,
    row: DisplayName,
)
    ensures
        follows(
            Flow::ParsingForPost { service_name, raw, input },
            post_script(service_name, raw, input, pseudo_id, user, row),
            Response::DisplayName(row),
        ),
{
    let start = Flow::ParsingForPost { service_name, raw, input };
    let replies = replies_of(post_script(service_name, raw, input, pseudo_id, user, row));
    assert(state_at(start, replies, 0) == start);
    assert(state_at(start, replies, 1) is EnsuringUser);
    assert(state_at(start, replies, 2) is Posting);
    assert(state_at(start, replies, 3) is RecordingName);
    assert(state_at(start, replies, 4) is Finished);
}

/// The names of a user are listed as the table lists them.
pub proof fn law_names_are_listed(raw: String, pseudo_id: PseudoId, names: Vec<DisplayName>)
    ensures
        follows(
            Flow::ParsingForNames { raw },
            seq![
                (CallView::ParsePseudoId { raw: raw@ }, Reply::PseudoId(pseudo_id)),
                (CallView::ListDisplayNames { pseudo_id: pseudo_id@ }, Reply::DisplayNames(names)),
            ],
            Response::DisplayNames(names),
        ),
{
    let start = Flow::ParsingForNames { raw };
    let script = seq![
        (CallView::ParsePseudoId { raw: raw@ }, Reply::PseudoId(pseudo_id)),
        (CallView::ListDisplayNames { pseudo_id: pseudo_id@ }, Reply::DisplayNames(names)),
    ];
    let replies = replies_of(script);
    assert(state_at(start, replies, 0) == start);
    assert(state_at(start, replies, 1) is ListingNames);
    assert(state_at(start, replies, 2) is Finished);
}

/// The users are listed as the directory lists them.
pub proof fn law_users_are_listed(users: Vec<User>)
    ensures
        follows(
            Flow::ListingUsers,
            seq![(CallView::ListUsers, Reply::Users(users))],
            Response::Users(users),
        ),
{
    let replies = replies_of(seq![(CallView::ListUsers, Reply::Users(users))]);
    assert(state_at(Flow::ListingUsers, replies, 0) == Flow::ListingUsers);
    assert(state_at(Flow::ListingUsers, replies, 1) is Finished);
}

/// The course of a change of admin rights.
pub open spec fn admin_script(
    service_name: String,
    raw: String,
    request: PatchUserRequest,
    pseudo_id: PseudoId,
    user: User,
) -> Script {
    seq![
        (CallView::ParsePseudoId { raw: raw@ }, Reply::PseudoId(pseudo_id)),
        (CallView::Begin, Reply::Done),
        (
            CallView::SetAdmin { pseudo_id: pseudo_id@, is_admin: request.is_admin },
            Reply::User(user),
        ),
        (
            CallView::AppendAudit {
                entry: users::admin_entry(service_name@, pseudo_id@, request.is_admin),
                in_transaction: true,
            },
            Reply::Done,
        ),
        (CallView::Commit, Reply::Done),
    ]
}

/// Admin rights are changed and recorded in one transaction.
pub proof fn law_admin_change_takes_its_course(
    service_name: String,
    raw: String,
    request: PatchUserRequest,
    pseudo_id: PseudoId,
    user: User,
)
    ensures
        follows(
            Flow::ParsingForPatch { service_name, raw, request },
            admin_script(service_name, raw, request, pseudo_id, user),
            Response::User(user),
        ),
{
    let start = Flow::ParsingForPatch { service_name, raw, request };
    let replies = replies_of(admin_script(service_name, raw, request, pseudo_id, user));
    assert(state_at(start, replies, 0) == start);
    assert(state_at(start, replies, 1) is OpeningPatch);
    assert(state_at(start, replies, 2) is SettingAdmin);
    assert(state_at(start, replies, 3) is RecordingAdmin);
    assert(state_at(start, replies, 4) is CommittingPatch);
    assert(state_at(start, replies, 5) is Finished);
}


/// The view of a call shows all that the call asks for, as it is held.
pub proof fn law_view_of_a_call(call: Call)
    ensures
        call@ == (match call {
            Call::ParsePseudoId { raw } => CallView::ParsePseudoId { raw: raw@ },
            Call::UpsertUser { pseudo_id } => CallView::UpsertUser { pseudo_id: pseudo_id.text@ },
            Call::GetUser { pseudo_id } => CallView::GetUser { pseudo_id: pseudo_id.text@ },
            Call::ListUsers => CallView::ListUsers,
            Call::UpsertDisplayName { pseudo_id, input } => CallView::UpsertDisplayName {
                pseudo_id: pseudo_id.text@,
                input: input.body@,
            },
            Call::ListDisplayNames { pseudo_id } => CallView::ListDisplayNames {
                pseudo_id: pseudo_id.text@,
            },
            Call::AppendAudit { entry, in_transaction } => CallView::AppendAudit {
                entry: entry@,
                in_transaction,
            },
            Call::Begin => CallView::Begin,
            Call::SetAdmin { pseudo_id, is_admin } => CallView::SetAdmin {
                pseudo_id: pseudo_id.text@,
                is_admin,
            },
            Call::Commit => CallView::Commit,
        }),
{
}

/// A user is upserted under the pseudonym of the request; the service is recorded
/// to have done so; and the request is answered with the user's row.
pub proof fn law_upsert_is_as_requested(service_name: String, input: UpsertUser, user: User)
    ensures
        ({
            let start = Flow::Upserting { service_name, input };
            let recording = start.after(Reply::User(user));
            let who = input.pseudo_id.text@;
            &&& start.call() == Some(CallView::UpsertUser { pseudo_id: who })
            &&& recording.after(Reply::Done) == Flow::Finished(Ok(Response::User(user)))
            &&& recording.call() matches Some(CallView::AppendAudit { entry, in_transaction })
            &&& !in_transaction
            &&& entry.actor_service == service_name@
            &&& entry.actor_pseudo == Some(who)
            &&& entry.session_id is None
            &&& entry.resource_type == "user"@
            &&& entry.resource_id == who
            &&& entry.action == "upserted"@
            &&& entry.detail is None
        }),
{
}

/// A user is fetched under the pseudonym of the path, and shown with the first of
/// the listed names; without a name if and only if none is listed.
pub proof fn law_fetch_shows_the_first_name(
    raw: String,
    pseudo_id: PseudoId,
    user: User,
    names: Vec<DisplayName>,
)
    ensures
        ({
            let start = Flow::ParsingForFetch { raw };
            let fetching = start.after(Reply::PseudoId(pseudo_id));
            let naming = fetching.after(Reply::User(user));
            &&& start.call() == Some(CallView::ParsePseudoId { raw: raw@ })
            &&& fetching.call() == Some(CallView::GetUser { pseudo_id: pseudo_id.text@ })
            &&& naming.call() == Some(CallView::ListDisplayNames { pseudo_id: pseudo_id.text@ })
            &&& naming.after(Reply::DisplayNames(names)) matches Flow::Finished(
                Ok(Response::Profile { user: shown, latest_display_name }),
            )
            &&& shown == user
            &&& latest_display_name is None <==> names@.len() == 0
            &&& names@.len() > 0 ==> latest_display_name == Some(names@[0].display_name)
        }),
{
}

/// A name is noted, as reported, for the pseudonym of the path, after the user was
/// upserted; the sighting is recorded with its source and its count; and the
/// request is answered with the name's row.
pub proof fn law_post_is_as_reported(
    service_name: String,
    raw: String,
    input: UpsertDisplayName,
    pseudo_id: PseudoId,
    user: User,
    row: DisplayName,
)
    ensures
        ({
            let start = Flow::ParsingForPost { service_name, raw, input };
            let ensuring = start.after(Reply::PseudoId(pseudo_id));
            let posting = ensuring.after(Reply::User(user));
            let recording = posting.after(Reply::DisplayName(row));
            let who = pseudo_id.text@;
            &&& start.call() == Some(CallView::ParsePseudoId { raw: raw@ })
            &&& ensuring.call() == Some(CallView::UpsertUser { pseudo_id: who })
            &&& posting.call() == Some(
                CallView::UpsertDisplayName { pseudo_id: who, input: input.body@ },
            )
            &&& recording.after(Reply::Done) == Flow::Finished(Ok(Response::DisplayName(row)))
            &&& recording.call() matches Some(CallView::AppendAudit { entry, in_transaction })
            &&& !in_transaction
            &&& entry.actor_service == service_name@
            &&& entry.actor_pseudo == Some(who)
            &&& entry.session_id is None
            &&& entry.resource_type == "display_name"@
            &&& entry.resource_id == who + "/"@ + row.display_name@
            &&& entry.action == "seen"@
            &&& entry.detail matches Some(detail)
            &&& detail.len() == 2
            &&& detail[0].name == "source"@
            &&& detail[0].value == audit_log::ScalarView::Text(row.source@)
            &&& detail[1].name == "seen_count"@
            &&& detail[1].value == audit_log::ScalarView::Int(row.seen_count as int)
        }),
{
}

/// The names of the pseudonym of the path are listed as they come; and so are the
/// users.
pub proof fn law_lists_are_passed_on(
    raw: String,
    pseudo_id: PseudoId,
    names: Vec<DisplayName>,
    users: Vec<User>,
)
    ensures
        ({
            let start = Flow::ParsingForNames { raw };
            let listing = start.after(Reply::PseudoId(pseudo_id));
            &&& start.call() == Some(CallView::ParsePseudoId { raw: raw@ })
            &&& listing.call() == Some(CallView::ListDisplayNames { pseudo_id: pseudo_id.text@ })
            &&& listing.after(Reply::DisplayNames(names)) == Flow::Finished(
                Ok(Response::DisplayNames(names)),
            )
            &&& Flow::ListingUsers.call() == Some(CallView::ListUsers)
            &&& Flow::ListingUsers.after(Reply::Users(users)) == Flow::Finished(
                Ok(Response::Users(users)),
            )
        }),
{
}

/// The admin flag of the pseudonym of the path is set to what is requested, in a
/// transaction in which the service is recorded to have granted or revoked it;
/// after the commit the request is answered with the user's row.
pub proof fn law_admin_change_is_as_requested(
    service_name: String,
    raw: String,
    request: PatchUserRequest,
    pseudo_id: PseudoId,
    user: User,
)
    ensures
        ({
            let start = Flow::ParsingForPatch { service_name, raw, request };
            let opening = start.after(Reply::PseudoId(pseudo_id));
            let setting = opening.after(Reply::Done);
            let recording = setting.after(Reply::User(user));
            let committing = recording.after(Reply::Done);
            let who = pseudo_id.text@;
            &&& start.call() == Some(CallView::ParsePseudoId { raw: raw@ })
            &&& opening.call() == Some(CallView::Begin)
            &&& setting.call() == Some(
                CallView::SetAdmin { pseudo_id: who, is_admin: request.is_admin },
            )
            &&& committing.call() == Some(CallView::Commit)
            &&& committing.after(Reply::Done) == Flow::Finished(Ok(Response::User(user)))
            &&& recording.call() matches Some(CallView::AppendAudit { entry, in_transaction })
            &&& in_transaction
            &&& entry.actor_service == service_name@
            &&& entry.actor_pseudo == Some(who)
            &&& entry.session_id is None
            &&& entry.resource_type == "user"@
            &&& entry.resource_id == who
            &&& request.is_admin ==> entry.action == "admin_granted"@
            &&& !request.is_admin ==> entry.action == "admin_revoked"@
            &&& entry.detail matches Some(detail)
            &&& detail.len() == 1
            &&& detail[0].name == "is_admin"@
            &&& detail[0].value == audit_log::ScalarView::Bool(request.is_admin)
        }),
{
}

} // verus!
