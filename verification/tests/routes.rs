use chronicle::routes::table::{Endpoint, Method, Route};
use chronicle::routes::{consent, users, ws};

fn route(method: Method, path: &str, endpoint: Endpoint) -> Route {
    Route { method, path: path.to_string(), endpoint }
}

#[test]
fn consent_routes() {
    assert_eq!(
        consent::internal_routes(),
        vec![route(Method::Post, "/internal/consent-tokens", Endpoint::CreateToken)]
    );
    assert_eq!(
        consent::public_routes(),
        vec![
            route(Method::Get, "/public/consent/{token}", Endpoint::GetConsent),
            route(Method::Patch, "/public/consent/{token}", Endpoint::PatchConsent),
            route(Method::Delete, "/public/consent/{token}/audio", Endpoint::DeleteAudio),
        ]
    );
}

#[test]
fn user_routes() {
    assert_eq!(
        users::routes(),
        vec![
            route(Method::Post, "/internal/users", Endpoint::UpsertUser),
            route(Method::Get, "/internal/admin/users", Endpoint::ListAdminUsers),
            route(Method::Get, "/internal/users/{pseudo_id}", Endpoint::FetchUser),
            route(Method::Patch, "/internal/users/{pseudo_id}", Endpoint::PatchUser),
            route(Method::Post, "/internal/users/{pseudo_id}/display_names", Endpoint::PostDisplay),
            route(Method::Get, "/internal/users/{pseudo_id}/display_names", Endpoint::ListDisplay),
        ]
    );
}

#[test]
fn ws_route() {
    assert_eq!(ws::routes(), vec![route(Method::Get, "/ws", Endpoint::WsUpgrade)]);
}

#[test]
fn routes_do_not_collide() {
    let mut all = consent::internal_routes();
    all.extend(consent::public_routes());
    all.extend(users::routes());
    all.extend(ws::routes());
    assert_eq!(all.len(), 11);
    for i in 0..all.len() {
        for j in 0..i {
            assert!(all[i].method != all[j].method || all[i].path != all[j].path);
        }
    }
}
