//! Users and the names under which they were seen.

use vstd::prelude::*;

use crate::db::audit_log;
use crate::db::audit_log::{Entry, Field, Scalar};
use crate::db::display_names::{DisplayName, UpsertDisplayName};
use crate::db::users::{UpsertUser, User};
use crate::error::AppError;
use crate::ids::{PseudoId, Uuid};
use crate::routes::table;
use crate::routes::table::{Endpoint, Method, Route};
use crate::text::slash_joined;

verus! {

/// A request to grant or withdraw admin rights.
#[derive(Clone, Copy, Debug, PartialEq, Eq)]
pub struct PatchUserRequest {
    pub is_admin: bool,
}

/// A call that a flow asks for.
#[derive(Debug, PartialEq, Eq)]
pub enum Call {
    /// Check that a text is a pseudonym.
    ParsePseudoId { raw: String },
    UpsertUser { pseudo_id: PseudoId },
    GetUser { pseudo_id: PseudoId },
    ListUsers,
    UpsertDisplayName { pseudo_id: PseudoId, input: UpsertDisplayName },
    ListDisplayNames { pseudo_id: PseudoId },
    /// Append to the audit log, inside the open transaction or on its own.
    AppendAudit { entry: Entry, in_transaction: bool },
    /// Open a transaction. It is rolled back if the flow ends before `Commit`.
    Begin,
    /// Set the admin flag, inside the transaction.
    SetAdmin { pseudo_id: PseudoId, is_admin: bool },
    Commit,
}

/// The reply to a call.
#[derive(Debug, PartialEq, Eq)]
pub enum Reply {
    Failed(AppError),
    PseudoId(PseudoId),
    User(User),
    Users(Vec<User>),
    DisplayName(DisplayName),
    DisplayNames(Vec<DisplayName>),
    Done,
}

/// A successful answer.
#[derive(Debug, PartialEq, Eq)]
pub enum Response {
    User(User),
    Profile { user: User, latest_display_name: Option<String> },
    DisplayName(DisplayName),
    DisplayNames(Vec<DisplayName>),
    Users(Vec<User>),
}

/// Where the handling of a request stands.
#[derive(Debug, PartialEq, Eq)]
pub enum Flow {
    /// Upserting a user.
    Upserting { service_name: String, input: UpsertUser },
    RecordingUpsert { service_name: String, input: UpsertUser, user: User },
    /// Fetching a user.
    ParsingForFetch { raw: String },
    Fetching { pseudo_id: PseudoId },
    FetchingNames { pseudo_id: PseudoId, user: User },
    /// Noting that a name was seen.
    ParsingForPost { service_name: String, raw: String, input: UpsertDisplayName },
    EnsuringUser { service_name: String, pseudo_id: PseudoId, input: UpsertDisplayName },
    Posting { service_name: String, pseudo_id: PseudoId, input: UpsertDisplayName },
    RecordingName { service_name: String, pseudo_id: PseudoId, row: DisplayName },
    /// Listing a user's names.
    ParsingForNames { raw: String },
    ListingNames { pseudo_id: PseudoId },
    /// Listing the users.
    ListingUsers,
    /// Granting or withdrawing admin rights.
    ParsingForPatch { service_name: String, raw: String, request: PatchUserRequest },
    OpeningPatch { service_name: String, pseudo_id: PseudoId, request: PatchUserRequest },
    SettingAdmin { service_name: String, pseudo_id: PseudoId, request: PatchUserRequest },
    RecordingAdmin {
        service_name: String,
        pseudo_id: PseudoId,
        request: PatchUserRequest,
        user: User,
    },
    CommittingPatch { user: User },
    Finished(Result<Response, AppError>),
}

/// What a call asks for, without regard to how it is held.
pub enum CallView {
    ParsePseudoId { raw: Seq<char> },
    UpsertUser { pseudo_id: Seq<char> },
    GetUser { pseudo_id: Seq<char> },
    ListUsers,
    UpsertDisplayName { pseudo_id: Seq<char>, input: Seq<char> },
    ListDisplayNames { pseudo_id: Seq<char> },
    AppendAudit { entry: audit_log::EntryView, in_transaction: bool },
    Begin,
    SetAdmin { pseudo_id: Seq<char>, is_admin: bool },
    Commit,
}

impl View for Call {
    type V = CallView;

    open spec fn view(&self) -> CallView {
        match self {
            Call::ParsePseudoId { raw } => CallView::ParsePseudoId { raw: raw@ },
            Call::UpsertUser { pseudo_id } => CallView::UpsertUser { pseudo_id: pseudo_id@ },
            Call::GetUser { pseudo_id } => CallView::GetUser { pseudo_id: pseudo_id@ },
            Call::ListUsers => CallView::ListUsers,
            Call::UpsertDisplayName { pseudo_id, input } => CallView::UpsertDisplayName {
                pseudo_id: pseudo_id@,
                input: input.body@,
            },
            Call::ListDisplayNames { pseudo_id } => CallView::ListDisplayNames {
                pseudo_id: pseudo_id@,
            },
            Call::AppendAudit { entry, in_transaction } => CallView::AppendAudit {
                entry: entry@,
                in_transaction: *in_transaction,
            },
            Call::Begin => CallView::Begin,
            Call::SetAdmin { pseudo_id, is_admin } => CallView::SetAdmin {
                pseudo_id: pseudo_id@,
                is_admin: *is_admin,
            },
            Call::Commit => CallView::Commit,
        }
    }
}

/// An audit entry on the user `pseudo_id`, outside any session.
pub open spec fn user_entry(
    service_name: Seq<char>,
    pseudo_id: Seq<char>,
    resource_type: Seq<char>,
    resource_id: Seq<char>,
    action: Seq<char>,
    detail: Option<Seq<audit_log::FieldView>>,
) -> audit_log::EntryView {
    audit_log::EntryView {
        actor_service: service_name,
        actor_pseudo: Some(pseudo_id),
        session_id: None::<Uuid>,
        resource_type,
        resource_id,
        action,
        detail,
    }
}

/// The audit entry of an upsert.
pub open spec fn upsert_entry(
    service_name: Seq<char>,
    pseudo_id: Seq<char>,
) -> audit_log::EntryView {
    user_entry(service_name, pseudo_id, "user"@, pseudo_id, "upserted"@, None)
}

/// The audit entry of a name that was seen.
pub open spec fn name_entry(
    service_name: Seq<char>,
    pseudo_id: Seq<char>,
    row: DisplayName,
) -> audit_log::EntryView {
    user_entry(
        service_name,
        pseudo_id,
        "display_name"@,
        pseudo_id + "/"@ + row.display_name@,
        "seen"@,
        Some(
            seq![
                audit_log::FieldView {
                    name: "source"@,
                    value: audit_log::ScalarView::Text(row.source@),
                },
                audit_log::FieldView {
                    name: "seen_count"@,
                    value: audit_log::ScalarView::Int(row.seen_count as int),
                },
            ],
        ),
    )
}

/// The audit entry of a change of admin rights.
pub open spec fn admin_entry(
    service_name: Seq<char>,
    pseudo_id: Seq<char>,
    is_admin: bool,
) -> audit_log::EntryView {
    user_entry(
        service_name,
        pseudo_id,
        "user"@,
        pseudo_id,
        if is_admin {
            "admin_granted"@
        } else {
            "admin_revoked"@
        },
        Some(
            seq![
                audit_log::FieldView {
                    name: "is_admin"@,
                    value: audit_log::ScalarView::Bool(is_admin),
                },
            ],
        ),
    )
}

/// The name that stands first.
pub open spec fn first_name(names: Seq<DisplayName>) -> Option<String> {
    if names.len() == 0 {
        None
    } else {
        Some(names[0].display_name)
    }
}

impl Flow {
    /// The call that is pending; none once the request is answered.
    pub open spec fn call(self) -> Option<CallView> {
        match self {
            Flow::Upserting { service_name, input } => Some(
                CallView::UpsertUser { pseudo_id: input.pseudo_id@ },
            ),
            Flow::RecordingUpsert { service_name, input, user } => Some(
                CallView::AppendAudit {
                    entry: upsert_entry(service_name@, input.pseudo_id@),
                    in_transaction: false,
                },
            ),
            Flow::ParsingForFetch { raw } => Some(CallView::ParsePseudoId { raw: raw@ }),
            Flow::Fetching { pseudo_id } => Some(CallView::GetUser { pseudo_id: pseudo_id@ }),
            Flow::FetchingNames { pseudo_id, user } => Some(
                CallView::ListDisplayNames { pseudo_id: pseudo_id@ },
            ),
            Flow::ParsingForPost { service_name, raw, input } => Some(
                CallView::ParsePseudoId { raw: raw@ },
            ),
            Flow::EnsuringUser { service_name, pseudo_id, input } => Some(
                CallView::UpsertUser { pseudo_id: pseudo_id@ },
            ),
            Flow::Posting { service_name, pseudo_id, input } => Some(
                CallView::UpsertDisplayName { pseudo_id: pseudo_id@, input: input.body@ },
            ),
            Flow::RecordingName { service_name, pseudo_id, row } => Some(
                CallView::AppendAudit {
                    entry: name_entry(service_name@, pseudo_id@, row),
                    in_transaction: false,
                },
            ),
            Flow::ParsingForNames { raw } => Some(CallView::ParsePseudoId { raw: raw@ }),
            Flow::ListingNames { pseudo_id } => Some(
                CallView::ListDisplayNames { pseudo_id: pseudo_id@ },
            ),
            Flow::ListingUsers => Some(CallView::ListUsers),
            Flow::ParsingForPatch { service_name, raw, request } => Some(
                CallView::ParsePseudoId { raw: raw@ },
            ),
            Flow::OpeningPatch { service_name, pseudo_id, request } => Some(CallView::Begin),
            Flow::SettingAdmin { service_name, pseudo_id, request } => Some(
                CallView::SetAdmin { pseudo_id: pseudo_id@, is_admin: request.is_admin },
            ),
            Flow::RecordingAdmin { service_name, pseudo_id, request, user } => Some(
                CallView::AppendAudit {
                    entry: admin_entry(service_name@, pseudo_id@, request.is_admin),
                    in_transaction: true,
                },
            ),
            Flow::CommittingPatch { user } => Some(CallView::Commit),
            Flow::Finished(_) => None,
        }
    }

    /// The state after `reply`. A failure ends the request. A reply that is none
    /// to the pending call changes nothing.
    pub open spec fn after(self, reply: Reply) -> Flow {
        match (self, reply) {
            (Flow::Finished(answer), _) => self,
            (_, Reply::Failed(error)) => Flow::Finished(Err(error)),
            (Flow::Upserting { service_name, input }, Reply::User(user)) => {
                Flow::RecordingUpsert { service_name, input, user }
            },
            (Flow::RecordingUpsert { service_name, input, user }, Reply::Done) => Flow::Finished(
                Ok(Response::User(user)),
            ),
            (Flow::ParsingForFetch { raw }, Reply::PseudoId(pseudo_id)) => Flow::Fetching {
                pseudo_id,
            },
            (Flow::Fetching { pseudo_id }, Reply::User(user)) => Flow::FetchingNames {
                pseudo_id,
                user,
            },
            (Flow::FetchingNames { pseudo_id, user }, Reply::DisplayNames(names)) => {
                Flow::Finished(
                    Ok(
                        Response::Profile { user, latest_display_name: first_name(names@) },
                    ),
                )
            },
            (Flow::ParsingForPost { service_name, raw, input }, Reply::PseudoId(pseudo_id)) => {
                Flow::EnsuringUser { service_name, pseudo_id, input }
            },
            (Flow::EnsuringUser { service_name, pseudo_id, input }, Reply::User(_)) => {
                Flow::Posting { service_name, pseudo_id, input }
            },
            (Flow::Posting { service_name, pseudo_id, input }, Reply::DisplayName(row)) => {
                Flow::RecordingName { service_name, pseudo_id, row }
            },
            (Flow::RecordingName { service_name, pseudo_id, row }, Reply::Done) => {
                Flow::Finished(Ok(Response::DisplayName(row)))
            },
            (Flow::ParsingForNames { raw }, Reply::PseudoId(pseudo_id)) => Flow::ListingNames {
                pseudo_id,
            },
            (Flow::ListingNames { pseudo_id }, Reply::DisplayNames(names)) => Flow::Finished(
                Ok(Response::DisplayNames(names)),
            ),
            (Flow::ListingUsers, Reply::Users(users)) => Flow::Finished(
                Ok(Response::Users(users)),
            ),
            (
                Flow::ParsingForPatch { service_name, raw, request },
                Reply::PseudoId(pseudo_id),
            ) => Flow::OpeningPatch { service_name, pseudo_id, request },
            (Flow::OpeningPatch { service_name, pseudo_id, request }, Reply::Done) => {
                Flow::SettingAdmin { service_name, pseudo_id, request }
            },
            (Flow::SettingAdmin { service_name, pseudo_id, request }, Reply::User(user)) => {
                Flow::RecordingAdmin { service_name, pseudo_id, request, user }
            },
            (Flow::RecordingAdmin { service_name, pseudo_id, request, user }, Reply::Done) => {
                Flow::CommittingPatch { user }
            },
            (Flow::CommittingPatch { user }, Reply::Done) => Flow::Finished(
                Ok(Response::User(user)),
            ),
            _ => self,
        }
    }
}

/// Makes sure that a user is in the directory.
pub fn upsert_user(service_name: String, input: UpsertUser) -> (res: Flow)
    ensures
        res == (Flow::Upserting { service_name, input }),
{
    Flow::Upserting { service_name, input }
}

/// Shows a user with the latest name.
pub fn fetch_user(pid: String) -> (res: Flow)
    ensures
        res == (Flow::ParsingForFetch { raw: pid }),
{
    Flow::ParsingForFetch { raw: pid }
}

/// Notes that a name was seen.
pub fn post_display(pid: String, service_name: String, input: UpsertDisplayName) -> (res: Flow)
    ensures
        res == (Flow::ParsingForPost { service_name, raw: pid, input }),
{
    Flow::ParsingForPost { service_name, raw: pid, input }
}

/// Lists the names of a user.
pub fn list_display(pid: String) -> (res: Flow)
    ensures
        res == (Flow::ParsingForNames { raw: pid }),
{
    Flow::ParsingForNames { raw: pid }
}

/// Lists the users.
pub fn list_admin_users() -> (res: Flow)
    ensures
        res == Flow::ListingUsers,
{
    Flow::ListingUsers
}

/// Grants or withdraws admin rights.
pub fn patch_user(service_name: String, pid: String, request: PatchUserRequest) -> (res: Flow)
    ensures
        res == (Flow::ParsingForPatch { service_name, raw: pid, request }),
{
    Flow::ParsingForPatch { service_name, raw: pid, request }
}

fn user_record(
    service_name: &String,
    pseudo_id: &PseudoId,
    resource_type: &str,
    resource_id: String,
    action: &str,
    detail: Option<Vec<Field>>,
) -> (res: Entry)
    ensures
        res@ == user_entry(
            service_name@,
            pseudo_id@,
            resource_type@,
            resource_id@,
            action@,
            match detail {
                Some(fields) => Some(fields@.map_values(|f: Field| f@)),
                None => None,
            },
        ),
{
    Entry {
        actor_service: service_name.clone(),
        actor_pseudo: Some(pseudo_id.text.clone()),
        session_id: None,
        resource_type: resource_type.to_owned(),
        resource_id,
        action: action.to_owned(),
        detail,
    }
}

fn upsert_record(service_name: &String, pseudo_id: &PseudoId) -> (res: Entry)
    ensures
        res@ == upsert_entry(service_name@, pseudo_id@),
{
    user_record(service_name, pseudo_id, "user", pseudo_id.text.clone(), "upserted", None)
}

fn name_record(service_name: &String, pseudo_id: &PseudoId, row: &DisplayName) -> (res: Entry)
    ensures
        res@ == name_entry(service_name@, pseudo_id@, *row),
{
    let mut detail: Vec<Field> = Vec::new();
    detail.push(Field::new("source", Scalar::Text(row.source.clone())));
    detail.push(Field::new("seen_count", Scalar::Int(row.seen_count)));
    assert(detail@.map_values(|f: Field| f@) =~= name_entry(
        service_name@,
        pseudo_id@,
        *row,
    ).detail->0);
    user_record(
        service_name,
        pseudo_id,
        "display_name",
        slash_joined(pseudo_id.as_str(), row.display_name.as_str()),
        "seen",
        Some(detail),
    )
}

fn admin_record(service_name: &String, pseudo_id: &PseudoId, is_admin: bool) -> (res: Entry)
    ensures
        res@ == admin_entry(service_name@, pseudo_id@, is_admin),
{
    let mut detail: Vec<Field> = Vec::new();
    detail.push(Field::new("is_admin", Scalar::Bool(is_admin)));
    assert(detail@.map_values(|f: Field| f@) =~= admin_entry(
        service_name@,
        pseudo_id@,
        is_admin,
    ).detail->0);
    let action = if is_admin {
        "admin_granted"
    } else {
        "admin_revoked"
    };
    user_record(
        service_name,
        pseudo_id,
        "user",
        pseudo_id.text.clone(),
        action,
        Some(detail),
    )
}

impl Flow {
    /// The call to make next; none once the request is answered.
    pub fn pending(&self) -> (res: Option<Call>)
        ensures
            match res {
                Some(call) => self.call() == Some(call@),
                None => self.call() is None,
            },
    {
        match self {
            Flow::Upserting { service_name: _, input } => Some(
                Call::UpsertUser { pseudo_id: input.pseudo_id.clone() },
            ),
            Flow::RecordingUpsert { service_name, input, user: _ } => Some(
                Call::AppendAudit {
                    entry: upsert_record(service_name, &input.pseudo_id),
                    in_transaction: false,
                },
            ),
            Flow::ParsingForFetch { raw } => Some(Call::ParsePseudoId { raw: raw.clone() }),
            Flow::Fetching { pseudo_id } => Some(
                Call::GetUser { pseudo_id: pseudo_id.clone() },
            ),
            Flow::FetchingNames { pseudo_id, user: _ } => Some(
                Call::ListDisplayNames { pseudo_id: pseudo_id.clone() },
            ),
            Flow::ParsingForPost { service_name: _, raw, input: _ } => Some(
                Call::ParsePseudoId { raw: raw.clone() },
            ),
            Flow::EnsuringUser { service_name: _, pseudo_id, input: _ } => Some(
                Call::UpsertUser { pseudo_id: pseudo_id.clone() },
            ),
            Flow::Posting { service_name: _, pseudo_id, input } => Some(
                Call::UpsertDisplayName { pseudo_id: pseudo_id.clone(), input: input.clone() },
            ),
            Flow::RecordingName { service_name, pseudo_id, row } => Some(
                Call::AppendAudit {
                    entry: name_record(service_name, pseudo_id, row),
                    in_transaction: false,
                },
            ),
            Flow::ParsingForNames { raw } => Some(Call::ParsePseudoId { raw: raw.clone() }),
            Flow::ListingNames { pseudo_id } => Some(
                Call::ListDisplayNames { pseudo_id: pseudo_id.clone() },
            ),
            Flow::ListingUsers => Some(Call::ListUsers),
            Flow::ParsingForPatch { service_name: _, raw, request: _ } => Some(
                Call::ParsePseudoId { raw: raw.clone() },
            ),
            Flow::OpeningPatch { service_name: _, pseudo_id: _, request: _ } => Some(Call::Begin),
            Flow::SettingAdmin { service_name: _, pseudo_id, request } => Some(
                Call::SetAdmin { pseudo_id: pseudo_id.clone(), is_admin: request.is_admin },
            ),
            Flow::RecordingAdmin { service_name, pseudo_id, request, user: _ } => Some(
                Call::AppendAudit {
                    entry: admin_record(service_name, pseudo_id, request.is_admin),
                    in_transaction: true,
                },
            ),
            Flow::CommittingPatch { user: _ } => Some(Call::Commit),
            Flow::Finished(_) => None,
        }
    }

    /// Takes in the reply to the pending call.
    pub fn advance(self, reply: Reply) -> (res: Flow)
        ensures
            res == self.after(reply),
    {
        match (self, reply) {
            (Flow::Finished(answer), _) => Flow::Finished(answer),
            (_, Reply::Failed(error)) => Flow::Finished(Err(error)),
            (Flow::Upserting { service_name, input }, Reply::User(user)) => {
                Flow::RecordingUpsert { service_name, input, user }
            },
            (Flow::RecordingUpsert { service_name: _, input: _, user }, Reply::Done) => {
                Flow::Finished(Ok(Response::User(user)))
            },
            (Flow::ParsingForFetch { raw: _ }, Reply::PseudoId(pseudo_id)) => Flow::Fetching {
                pseudo_id,
            },
            (Flow::Fetching { pseudo_id }, Reply::User(user)) => Flow::FetchingNames {
                pseudo_id,
                user,
            },
            (Flow::FetchingNames { pseudo_id: _, user }, Reply::DisplayNames(names)) => {
                let latest_display_name = if names.len() == 0 {
                    None
                } else {
                    Some(names[0].display_name.clone())
                };
                Flow::Finished(Ok(Response::Profile { user, latest_display_name }))
            },
            (
                Flow::ParsingForPost { service_name, raw: _, input },
                Reply::PseudoId(pseudo_id),
            ) => Flow::EnsuringUser { service_name, pseudo_id, input },
            (Flow::EnsuringUser { service_name, pseudo_id, input }, Reply::User(_)) => {
                Flow::Posting { service_name, pseudo_id, input }
            },
            (
                Flow::Posting { service_name, pseudo_id, input: _ },
                Reply::DisplayName(row),
            ) => Flow::RecordingName { service_name, pseudo_id, row },
            (Flow::RecordingName { service_name: _, pseudo_id: _, row }, Reply::Done) => {
                Flow::Finished(Ok(Response::DisplayName(row)))
            },
            (Flow::ParsingForNames { raw: _ }, Reply::PseudoId(pseudo_id)) => {
                Flow::ListingNames { pseudo_id }
            },
            (Flow::ListingNames { pseudo_id: _ }, Reply::DisplayNames(names)) => Flow::Finished(
                Ok(Response::DisplayNames(names)),
            ),
            (Flow::ListingUsers, Reply::Users(users)) => Flow::Finished(
                Ok(Response::Users(users)),
            ),
            (
                Flow::ParsingForPatch { service_name, raw: _, request },
                Reply::PseudoId(pseudo_id),
            ) => Flow::OpeningPatch { service_name, pseudo_id, request },
            (Flow::OpeningPatch { service_name, pseudo_id, request }, Reply::Done) => {
                Flow::SettingAdmin { service_name, pseudo_id, request }
            },
            (Flow::SettingAdmin { service_name, pseudo_id, request }, Reply::User(user)) => {
                Flow::RecordingAdmin { service_name, pseudo_id, request, user }
            },
            (
                Flow::RecordingAdmin { service_name: _, pseudo_id: _, request: _, user },
                Reply::Done,
            ) => Flow::CommittingPatch { user },
            (Flow::CommittingPatch { user }, Reply::Done) => Flow::Finished(
                Ok(Response::User(user)),
            ),
            (flow, _) => flow,
        }
    }

    /// The answer to the request; none while a call is pending.
    pub fn into_response(self) -> (res: Option<Result<Response, AppError>>)
        ensures
            match self {
                Flow::Finished(answer) => res == Some(answer),
                _ => res is None,
            },
    {
        match self {
            Flow::Finished(answer) => Some(answer),
            _ => None,
        }
    }
}

/// The routes of `routes`.
pub open spec fn table() -> Seq<table::RouteView> {
    seq![
        table::RouteView {
            method: Method::Post,
            path: "/internal/users"@,
            endpoint: Endpoint::UpsertUser,
        },
        table::RouteView {
            method: Method::Get,
            path: "/internal/admin/users"@,
            endpoint: Endpoint::ListAdminUsers,
        },
        table::RouteView {
            method: Method::Get,
            path: "/internal/users/{pseudo_id}"@,
            endpoint: Endpoint::FetchUser,
        },
        table::RouteView {
            method: Method::Patch,
            path: "/internal/users/{pseudo_id}"@,
            endpoint: Endpoint::PatchUser,
        },
        table::RouteView {
            method: Method::Post,
            path: "/internal/users/{pseudo_id}/display_names"@,
            endpoint: Endpoint::PostDisplay,
        },
        table::RouteView {
            method: Method::Get,
            path: "/internal/users/{pseudo_id}/display_names"@,
            endpoint: Endpoint::ListDisplay,
        },
    ]
}

/// The routes on users and their names.
pub fn routes() -> (res: Vec<Route>)
    ensures
        table::table_of(res@) == table(),
{
    let mut routes: Vec<Route> = Vec::new();
    routes.push(Route::new(Method::Post, "/internal/users", Endpoint::UpsertUser));
    routes.push(Route::new(Method::Get, "/internal/admin/users", Endpoint::ListAdminUsers));
    routes.push(Route::new(Method::Get, "/internal/users/{pseudo_id}", Endpoint::FetchUser));
    routes.push(Route::new(Method::Patch, "/internal/users/{pseudo_id}", Endpoint::PatchUser));
    routes.push(Route::new(Method::Post, "/internal/users/{pseudo_id}/display_names", Endpoint::PostDisplay));
    routes.push(Route::new(Method::Get, "/internal/users/{pseudo_id}/display_names", Endpoint::ListDisplay));
    assert(table::table_of(routes@) =~= table());
    routes
}

} // verus!
