//! The route table.

use wyrtloom_dashboard::auth::RequiredAuth;
use wyrtloom_dashboard::routes::{
    assert_all_routes_gated, build_router, route_table, Endpoint, RouteSpec,
};
use wyrtloom_dashboard::users::Role;

#[test]
fn table_is_the_documented_one() {
    let viewer = RequiredAuth::Role(Role::Viewer);
    let operator = RequiredAuth::Role(Role::Operator);
    let admin = RequiredAuth::Role(Role::Admin);
    let expected = [
        ("POST", "/api/enroll", RequiredAuth::PublicBootstrap, Endpoint::Enroll),
        ("POST", "/api/login", RequiredAuth::ClientOnly, Endpoint::Login),
        ("POST", "/api/logout", viewer, Endpoint::Logout),
        ("GET", "/api/board", viewer, Endpoint::Board),
        ("GET", "/api/tasks/:id", viewer, Endpoint::GetTask),
        ("POST", "/api/tasks", operator, Endpoint::CreateTask),
        ("POST", "/api/tasks/:id/transition", operator, Endpoint::TransitionTask),
        ("POST", "/api/tasks/:id/claim", operator, Endpoint::ClaimTask),
        ("POST", "/api/tasks/:id/block", operator, Endpoint::BlockTask),
        ("GET", "/api/config", admin, Endpoint::GetConfig),
        ("PUT", "/api/config", admin, Endpoint::PutConfig),
        ("GET", "/api/plugins", viewer, Endpoint::Plugins),
        ("GET", "/api/logs", admin, Endpoint::Logs),
        ("GET", "/api/audit", admin, Endpoint::Audit),
    ];
    let found: Vec<_> = route_table()
        .iter()
        .map(|route| (route.method, route.path, route.auth, route.handler))
        .collect();
    assert_eq!(found, expected);
}

#[test]
fn no_method_and_path_occurs_twice() {
    let mut found: Vec<_> =
        route_table().iter().map(|route| (route.path, route.method)).collect();
    found.sort();
    let len = found.len();
    found.dedup();
    assert_eq!(found.len(), len);
}

fn open_board(auth: RequiredAuth) -> RouteSpec {
    RouteSpec { method: "GET", path: "/api/board", auth, handler: Endpoint::Board }
}

#[test]
fn ungated_routes_are_named() {
    let mut table = route_table();
    table.push(open_board(RequiredAuth::PublicBootstrap));
    table.push(open_board(RequiredAuth::ClientOnly));
    assert_eq!(
        assert_all_routes_gated(&table),
        Err("only /api/enroll may be PublicBootstrap; GET /api/board is not".to_string())
    );
    let table = vec![open_board(RequiredAuth::ClientOnly)];
    assert_eq!(
        assert_all_routes_gated(&table),
        Err("only /api/login may be ClientOnly; GET /api/board is not".to_string())
    );
    assert!(build_router(table).is_err());
    let swapped = RouteSpec {
        method: "POST",
        path: "/api/login",
        auth: RequiredAuth::PublicBootstrap,
        handler: Endpoint::Login,
    };
    assert!(build_router(vec![swapped]).is_err());
}

#[test]
fn gated_tables_are_mounted_whole() {
    let mounted = build_router(route_table()).unwrap();
    assert_eq!(mounted.len(), 14);
    assert_eq!(mounted[0].path, "/api/enroll");
    assert!(build_router(vec![]).unwrap().is_empty());
}

#[test]
fn overlapping_routes_are_named() {
    let viewer = RequiredAuth::Role(Role::Viewer);
    let mut table = route_table();
    table.push(RouteSpec { method: "PUT", ..open_board(viewer) });
    assert_eq!(build_router(table.clone()).unwrap().len(), 15);
    table.push(open_board(RequiredAuth::Role(Role::Admin)));
    table.push(RouteSpec { method: "PUT", ..open_board(viewer) });
    assert_eq!(
        build_router(table.clone()).unwrap_err(),
        "Overlapping method route. Handler for `GET /api/board` already exists"
    );
    // A missing gate is named first.
    table.push(open_board(RequiredAuth::ClientOnly));
    assert_eq!(
        build_router(table).unwrap_err(),
        "only /api/login may be ClientOnly; GET /api/board is not"
    );
    assert!(build_router(vec![]).unwrap().is_empty());
}
