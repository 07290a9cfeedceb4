//! Which requests go to which handler.

use vstd::prelude::*;

use crate::routes::{consent, users, ws};

verus! {

/// The method of a request.
#[derive(Clone, Copy, Debug, PartialEq, Eq, Structural)]
pub enum Method {
    Get,
    Post,
    Patch,
    Delete,
}

/// A handler.
#[derive(Clone, Copy, Debug, PartialEq, Eq, Structural)]
pub enum Endpoint {
    CreateToken,
    GetConsent,
    PatchConsent,
    DeleteAudio,
    UpsertUser,
    ListAdminUsers,
    FetchUser,
    PatchUser,
    PostDisplay,
    ListDisplay,
    WsUpgrade,
}

/// Requests with this method and a path of this form go to this handler. A part
/// of a path in braces stands for any text without a slash.
#[derive(Debug, PartialEq, Eq)]
pub struct Route {
    pub method: Method,
    pub path: String,
    pub endpoint: Endpoint,
}

pub struct RouteView {
    pub method: Method,
    pub path: Seq<char>,
    pub endpoint: Endpoint,
}

impl View for Route {
    type V = RouteView;

    open spec fn view(&self) -> RouteView {
        RouteView { method: self.method, path: self.path@, endpoint: self.endpoint }
    }
}

/// A table of routes, without regard to how it is held.
pub open spec fn table_of(routes: Seq<Route>) -> Seq<RouteView> {
    routes.map_values(|route: Route| route@)
}

impl Route {
    pub(crate) fn new(method: Method, path: &str, endpoint: Endpoint) -> (res: Route)
        ensures
            res@ == (RouteView { method, path: path@, endpoint }),
    {
        Route { method, path: path.to_owned(), endpoint }
    }
}

/// All routes.
pub open spec fn all_routes() -> Seq<RouteView> {
    consent::internal_table() + consent::public_table() + users::table() + ws::table()
}

/// A request goes to at most one handler: no two routes share method and path.
pub proof fn law_routes_do_not_collide(i: int, j: int)
    requires
        0 <= i < j < all_routes().len(),
    ensures
        all_routes()[i].method != all_routes()[j].method || all_routes()[i].path
            != all_routes()[j].path,
{
    reveal_strlit("/internal/consent-tokens");
    reveal_strlit("/public/consent/{token}");
    reveal_strlit("/public/consent/{token}/audio");
    reveal_strlit("/internal/users");
    reveal_strlit("/internal/admin/users");
    reveal_strlit("/internal/users/{pseudo_id}");
    reveal_strlit("/internal/users/{pseudo_id}/display_names");
    reveal_strlit("/ws");
    assert(all_routes().len() == 11);
    let table = all_routes();
    assert(table[0].path.len() == 24);
    assert(table[1].path.len() == 23 && table[2].path.len() == 23);
    assert(table[3].path.len() == 29);
    assert(table[4].path.len() == 15);
    assert(table[5].path.len() == 21);
    assert(table[6].path.len() == 27 && table[7].path.len() == 27);
    assert(table[8].path.len() == 41 && table[9].path.len() == 41);
    assert(table[10].path.len() == 3);
}

/// What is open without authentication is apart from what services call.
pub proof fn law_public_routes_are_apart()
    ensures
        forall|i: int|
            0 <= i < consent::public_table().len() ==> "/public/"@.is_prefix_of(
                (#[trigger] consent::public_table()[i]).path,
            ),
        forall|i: int|
            0 <= i < consent::internal_table().len() ==> "/internal/"@.is_prefix_of(
                (#[trigger] consent::internal_table()[i]).path,
            ),
        forall|i: int|
            0 <= i < users::table().len() ==> "/internal/"@.is_prefix_of(
                (#[trigger] users::table()[i]).path,
            ),
{
    reveal_strlit("/public/");
    reveal_strlit("/internal/");
    reveal_strlit("/internal/consent-tokens");
    reveal_strlit("/public/consent/{token}");
    reveal_strlit("/public/consent/{token}/audio");
    reveal_strlit("/internal/users");
    reveal_strlit("/internal/admin/users");
    reveal_strlit("/internal/users/{pseudo_id}");
    reveal_strlit("/internal/users/{pseudo_id}/display_names");
    let public = "/public/"@;
    let internal = "/internal/"@;
    assert(public =~= "/public/consent/{token}"@.take(8));
    assert(public =~= "/public/consent/{token}/audio"@.take(8));
    assert(internal =~= "/internal/consent-tokens"@.take(10));
    assert(internal =~= "/internal/users"@.take(10));
    assert(internal =~= "/internal/admin/users"@.take(10));
    assert(internal =~= "/internal/users/{pseudo_id}"@.take(10));
    assert(internal =~= "/internal/users/{pseudo_id}/display_names"@.take(10));
}

/// The view of a route is what it holds, and a table shows its routes in order.
pub proof fn law_view_of_a_route(routes: Seq<Route>, i: int)
    requires
        0 <= i < routes.len(),
    ensures
        table_of(routes).len() == routes.len(),
        table_of(routes)[i].method == routes[i].method,
        table_of(routes)[i].path == routes[i].path@,
        table_of(routes)[i].endpoint == routes[i].endpoint,
{
}

} // verus!
