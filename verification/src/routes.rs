//! The typed, default-deny route table.
//!
//! Every route is declared in [`route_table`] with its method, path and
//! [`RequiredAuth`]. [`build_router`] hands out the routes to mount only once
//! [`assert_all_routes_gated`] accepts the table and no two rows answer the same
//! method on the same path, so no route bypasses its gate: the default is deny.

use vstd::prelude::*;
use vstd::string::*;

use crate::auth::{RequestHeadView, RequiredAuth};
use crate::auth_laws::{client_verified, session_verdict, verdict, Answers};
use crate::text::same_text;
use crate::users::Role;

verus! {

/// The operation behind a route.
#[derive(Debug, Clone, Copy, PartialEq, Eq, Structural)]
pub enum Endpoint {
    Enroll,
    Login,
    Logout,
    Board,
    GetTask,
    CreateTask,
    TransitionTask,
    ClaimTask,
    BlockTask,
    GetConfig,
    PutConfig,
    Plugins,
    Logs,
    Audit,
}

/// One row of the route table.
#[derive(Debug, Clone, Copy)]
pub struct RouteSpec {
    pub method: &'static str,
    pub path: &'static str,
    pub auth: RequiredAuth,
    pub handler: Endpoint,
}

/// A row as contracts see it.
pub struct RouteView {
    pub method: Seq<char>,
    pub path: Seq<char>,
    pub auth: RequiredAuth,
    pub handler: Endpoint,
}

impl View for RouteSpec {
    type V = RouteView;

    open spec fn view(&self) -> RouteView {
        RouteView {
            method: self.method@,
            path: self.path@,
            auth: self.auth,
            handler: self.handler,
        }
    }
}

/// A table as contracts see it.
pub open spec fn table_view(table: Seq<RouteSpec>) -> Seq<RouteView> {
    table.map_values(|route: RouteSpec| route@)
}

/// The path of the enrollment route.
pub const ENROLL_PATH: &'static str = "/api/enroll";

/// The path of the login route.
pub const LOGIN_PATH: &'static str = "/api/login";

/// The row with these fields.
pub open spec fn row(
    method: Seq<char>,
    path: Seq<char>,
    auth: RequiredAuth,
    handler: Endpoint,
) -> RouteView {
    RouteView { method, path, auth, handler }
}

/// Every route that there is. Reads ask for `Viewer`, writes for `Operator`,
/// and configuration, logs and the audit chain for `Admin`.
pub open spec fn all_routes() -> Seq<RouteView> {
    let viewer = RequiredAuth::Role(Role::Viewer);
    let operator = RequiredAuth::Role(Role::Operator);
    let admin = RequiredAuth::Role(Role::Admin);
    seq![
        row("POST"@, ENROLL_PATH@, RequiredAuth::PublicBootstrap, Endpoint::Enroll),
        row("POST"@, LOGIN_PATH@, RequiredAuth::ClientOnly, Endpoint::Login),
        row("POST"@, "/api/logout"@, viewer, Endpoint::Logout),
        row("GET"@, "/api/board"@, viewer, Endpoint::Board),
        row("GET"@, "/api/tasks/:id"@, viewer, Endpoint::GetTask),
        row("POST"@, "/api/tasks"@, operator, Endpoint::CreateTask),
        row("POST"@, "/api/tasks/:id/transition"@, operator, Endpoint::TransitionTask),
        row("POST"@, "/api/tasks/:id/claim"@, operator, Endpoint::ClaimTask),
        row("POST"@, "/api/tasks/:id/block"@, operator, Endpoint::BlockTask),
        row("GET"@, "/api/config"@, admin, Endpoint::GetConfig),
        row("PUT"@, "/api/config"@, admin, Endpoint::PutConfig),
        row("GET"@, "/api/plugins"@, viewer, Endpoint::Plugins),
        row("GET"@, "/api/logs"@, admin, Endpoint::Logs),
        row("GET"@, "/api/audit"@, admin, Endpoint::Audit),
    ]
}

/// Whether a route's gate is one that its path may have: only enrollment may
/// be public, and only login may do without a session.
pub open spec fn gated(route: RouteView) -> bool {
    match route.auth {
        RequiredAuth::PublicBootstrap => route.path == ENROLL_PATH@,
        RequiredAuth::ClientOnly => route.path == LOGIN_PATH@,
        RequiredAuth::Role(_) => true,
    }
}

/// Whether every route of a table is gated.
pub open spec fn all_gated(table: Seq<RouteView>) -> bool {
    forall|i: int| 0 <= i < table.len() ==> gated(#[trigger] table[i])
}

/// What is said of a route that is not gated.
pub open spec fn ungated_message(route: RouteView) -> Seq<char> {
    let rule = if route.auth is PublicBootstrap {
        "only /api/enroll may be PublicBootstrap; "@
    } else {
        "only /api/login may be ClientOnly; "@
    };
    rule + route.method + " "@ + route.path + " is not"@
}

/// Whether no two rows share both method and path.
pub open spec fn distinct_rows(table: Seq<RouteView>) -> bool {
    forall|i: int, j: int|
        0 <= i < j < table.len() ==> (#[trigger] table[i]).method != (#[trigger] table[j]).method
            || table[i].path != table[j].path
}

/// What is said of a route whose method and path an earlier one has.
pub open spec fn overlap_message(route: RouteView) -> Seq<char> {
    "Overlapping method route. Handler for `"@ + route.method + " "@ + route.path
        + "` already exists"@
}

/// The single source of truth for every registered route and its gate.
pub fn route_table() -> (table: Vec<RouteSpec>)
    ensures
        table_view(table@) == all_routes(),
        all_gated(table_view(table@)),
{
    let viewer = RequiredAuth::Role(Role::Viewer);
    let operator = RequiredAuth::Role(Role::Operator);
    let admin = RequiredAuth::Role(Role::Admin);
    let table: Vec<RouteSpec> = vec![
        RouteSpec {
            method: "POST",
            path: ENROLL_PATH,
            auth: RequiredAuth::PublicBootstrap,
            handler: Endpoint::Enroll,
        },
        RouteSpec {
            method: "POST",
            path: LOGIN_PATH,
            auth: RequiredAuth::ClientOnly,
            handler: Endpoint::Login,
        },
        RouteSpec {
            method: "POST",
            path: "/api/logout",
            auth: viewer,
            handler: Endpoint::Logout,
        },
        RouteSpec { method: "GET", path: "/api/board", auth: viewer, handler: Endpoint::Board },
        RouteSpec {
            method: "GET",
            path: "/api/tasks/:id",
            auth: viewer,
            handler: Endpoint::GetTask,
        },
        RouteSpec {
            method: "POST",
            path: "/api/tasks",
            auth: operator,
            handler: Endpoint::CreateTask,
        },
        RouteSpec {
            method: "POST",
            path: "/api/tasks/:id/transition",
            auth: operator,
            handler: Endpoint::TransitionTask,
        },
        RouteSpec {
            method: "POST",
            path: "/api/tasks/:id/claim",
            auth: operator,
            handler: Endpoint::ClaimTask,
        },
        RouteSpec {
            method: "POST",
            path: "/api/tasks/:id/block",
            auth: operator,
            handler: Endpoint::BlockTask,
        },
        RouteSpec {
            method: "GET",
            path: "/api/config",
            auth: admin,
            handler: Endpoint::GetConfig,
        },
        RouteSpec {
            method: "PUT",
            path: "/api/config",
            auth: admin,
            handler: Endpoint::PutConfig,
        },
        RouteSpec {
            method: "GET",
            path: "/api/plugins",
            auth: viewer,
            handler: Endpoint::Plugins,
        },
        RouteSpec { method: "GET", path: "/api/logs", auth: admin, handler: Endpoint::Logs },
        RouteSpec { method: "GET", path: "/api/audit", auth: admin, handler: Endpoint::Audit },
    ];
    assert(table_view(table@) =~= all_routes());
    table
}

/// Checks that every route carries a gate that its path may have; otherwise
/// says which route is the first that does not.
pub fn assert_all_routes_gated(table: &[RouteSpec]) -> (result: Result<(), String>)
    ensures
        result is Ok <==> all_gated(table_view(table@)),
        result matches Err(message) ==> exists|i: int|
            0 <= i < table@.len() && !gated(#[trigger] table_view(table@)[i]) && all_gated(
                table_view(table@).take(i),
            ) && message@ == ungated_message(table_view(table@)[i]),
{
    let ghost rows = table_view(table@);
    let mut i: usize = 0;
    while i < table.len()
        invariant
            i <= table@.len(),
            rows == table_view(table@),
            all_gated(rows.take(i as int)),
        decreases table@.len() - i,
    {
        let route = table[i];
        assert(rows[i as int] == route@);
        let rule: Option<&'static str> = match route.auth {
            RequiredAuth::PublicBootstrap => if same_text(route.path, ENROLL_PATH) {
                None
            } else {
                Some("only /api/enroll may be PublicBootstrap; ")
            },
            RequiredAuth::ClientOnly => if same_text(route.path, LOGIN_PATH) {
                None
            } else {
                Some("only /api/login may be ClientOnly; ")
            },
            RequiredAuth::Role(_) => None,
        };
        match rule {
            Some(rule) => {
                let mut message = rule.to_owned();
                message.append(route.method);
                message.append(" ");
                message.append(route.path);
                message.append(" is not");
                return Err(message);
            },
            None => {},
        }
        assert(gated(rows[i as int]));
        assert forall|j: int| 0 <= j < i + 1 implies gated(#[trigger] rows.take(i + 1)[j]) by {
            if j < i {
                assert(rows.take(i as int)[j] == rows[j]);
            }
        }
        i += 1;
    }
    assert(rows.take(i as int) =~= rows);
    Ok(())
}

/// Whether one of the first `at` rows has the method and path of row `at`.
fn overlaps(table: &[RouteSpec], at: usize) -> (found: bool)
    requires
        at < table@.len(),
    ensures
        found <==> exists|i: int|
            0 <= i < at && (#[trigger] table_view(table@)[i]).method == table_view(
                table@,
            )[at as int].method && table_view(table@)[i].path == table_view(table@)[at as int].path,
{
    let ghost rows = table_view(table@);
    let mut i: usize = 0;
    while i < at
        invariant
            i <= at < table@.len(),
            rows == table_view(table@),
            forall|j: int|
                0 <= j < i ==> (#[trigger] rows[j]).method != rows[at as int].method || rows[j].path
                    != rows[at as int].path,
        decreases at - i,
    {
        assert(rows[i as int] == table@[i as int]@ && rows[at as int] == table@[at as int]@);
        if same_text(table[i].method, table[at].method) && same_text(
            table[i].path,
            table[at].path,
        ) {
            return true;
        }
        i += 1;
    }
    false
}

/// The routes to mount, each behind the requirement of its row: the whole
/// table, or nothing if one of its routes is not gated or has the method and
/// path of an earlier one. The first such route is named, and a missing gate
/// comes before an overlap. Whether the router can mount a path at all is left
/// to the router.
pub fn build_router(table: Vec<RouteSpec>) -> (mounted: Result<Vec<RouteSpec>, String>)
    ensures
        mounted is Ok <==> all_gated(table_view(table@)) && distinct_rows(table_view(table@)),
        mounted matches Ok(routes) ==> routes == table,
        mounted matches Err(message) ==> !all_gated(table_view(table@)) ==> exists|i: int|
            0 <= i < table@.len() && !gated(#[trigger] table_view(table@)[i]) && all_gated(
                table_view(table@).take(i),
            ) && message@ == ungated_message(table_view(table@)[i]),
        mounted matches Err(message) ==> all_gated(table_view(table@)) ==> exists|i: int|
            0 <= i < table@.len() && distinct_rows(table_view(table@).take(i)) && !distinct_rows(
                table_view(table@).take(i + 1),
            ) && message@ == overlap_message(#[trigger] table_view(table@)[i]),
{
    match assert_all_routes_gated(table.as_slice()) {
        Ok(()) => {},
        Err(message) => {
            return Err(message);
        },
    }
    let ghost rows = table_view(table@);
    let mut i: usize = 0;
    while i < table.len()
        invariant
            i <= table@.len(),
            rows == table_view(table@),
            all_gated(rows),
            distinct_rows(rows.take(i as int)),
        decreases table@.len() - i,
    {
        if overlaps(table.as_slice(), i) {
            let route = table[i];
            let mut message = "Overlapping method route. Handler for `".to_owned();
            message.append(route.method);
            message.append(" ");
            message.append(route.path);
            message.append("` already exists");
            proof {
                let first = choose|j: int|
                    0 <= j < i && (#[trigger] rows[j]).method == rows[i as int].method
                        && rows[j].path == rows[i as int].path;
                assert(rows.take(i + 1)[first].method == rows.take(i + 1)[i as int].method);
                assert(rows[first].method == rows[i as int].method);
                assert(rows[i as int] == route@);
                assert(message@ == overlap_message(rows[i as int]));
            }
            return Err(message);
        }
        assert forall|j: int, k: int| 0 <= j < k < i + 1 implies (#[trigger] rows.take(
            i + 1,
        )[j]).method != (#[trigger] rows.take(i + 1)[k]).method || rows.take(i + 1)[j].path
            != rows.take(i + 1)[k].path by {
            if k < i {
                assert(rows.take(i as int)[j] == rows[j] && rows.take(i as int)[k] == rows[k]);
            } else {
                assert(rows[j] == rows.take(i + 1)[j]);
            }
        }
        i += 1;
    }
    assert(rows.take(i as int) =~= rows);
    Ok(table)
}

/// Behind every gated table, a request is let through without a verified
/// client on the enrollment path alone, and without a live session of an
/// active user who holds the route's role on the enrollment and login paths
/// alone.
pub proof fn gated_routes_need_both_layers(
    table: Seq<RouteView>,
    at: int,
    head: RequestHeadView,
    answers: Answers,
)
    requires
        all_gated(table),
        0 <= at < table.len(),
        verdict(table[at].auth, head, answers) is Ok,
    ensures
        table[at].path != ENROLL_PATH@ ==> client_verified(head, answers),
        table[at].path != ENROLL_PATH@ && table[at].path != LOGIN_PATH@ ==> (
        session_verdict(head, answers) matches Ok(user) && user.active && (
        table[at].auth matches RequiredAuth::Role(role) && user.roles.contains(role))),
{
    assert(gated(table[at]));
}

proof fn reveal_route_literals()
    ensures
        "GET"@.len() == 3 && "GET"@[0] == 'G',
        "PUT"@.len() == 3 && "PUT"@[0] == 'P',
        "POST"@.len() == 4,
        ENROLL_PATH@.len() == 11 && ENROLL_PATH@[5] == 'e',
        LOGIN_PATH@.len() == 10 && LOGIN_PATH@[5] == 'l',
        "/api/logout"@.len() == 11 && "/api/logout"@[5] == 'l',
        "/api/board"@.len() == 10 && "/api/board"@[5] == 'b',
        "/api/tasks/:id"@.len() == 14,
        "/api/tasks"@.len() == 10 && "/api/tasks"@[5] == 't',
        "/api/tasks/:id/transition"@.len() == 25,
        "/api/tasks/:id/claim"@.len() == 20 && "/api/tasks/:id/claim"@[15] == 'c',
        "/api/tasks/:id/block"@.len() == 20 && "/api/tasks/:id/block"@[15] == 'b',
        "/api/config"@.len() == 11 && "/api/config"@[5] == 'c',
        "/api/plugins"@.len() == 12,
        "/api/logs"@.len() == 9,
        "/api/audit"@.len() == 10 && "/api/audit"@[5] == 'a',
{
    reveal_strlit("GET");
    reveal_strlit("PUT");
    reveal_strlit("POST");
    reveal_strlit("/api/enroll");
    reveal_strlit("/api/login");
    reveal_strlit("/api/logout");
    reveal_strlit("/api/board");
    reveal_strlit("/api/tasks/:id");
    reveal_strlit("/api/tasks");
    reveal_strlit("/api/tasks/:id/transition");
    reveal_strlit("/api/tasks/:id/claim");
    reveal_strlit("/api/tasks/:id/block");
    reveal_strlit("/api/config");
    reveal_strlit("/api/plugins");
    reveal_strlit("/api/logs");
    reveal_strlit("/api/audit");
}

/// No two routes answer the same method on the same path, so what a
/// route requires is all that stands before its operation.
pub proof fn routes_are_distinct(left: int, right: int)
    requires
        0 <= left < right < all_routes().len(),
    ensures
        all_routes()[left].method != all_routes()[right].method || all_routes()[left].path
            != all_routes()[right].path,
        all_routes()[left].handler != all_routes()[right].handler,
{
    reveal_route_literals();
}

/// The API's own table can be mounted: every route is gated, and no two of
/// them share both method and path.
pub proof fn api_routes_can_be_mounted()
    ensures
        all_gated(all_routes()),
        distinct_rows(all_routes()),
{
    assert forall|i: int, j: int| 0 <= i < j < all_routes().len() implies (
    #[trigger] all_routes()[i]).method != (#[trigger] all_routes()[j]).method
        || all_routes()[i].path != all_routes()[j].path by {
        routes_are_distinct(i, j);
    }
}

/// Who may do what: enrollment is public, login asks for a client, reading the
/// board and the plugins and logging out for a viewer, working on tasks for an
/// operator, and the configuration, the log and the audit chain for an
/// administrator. What only reads is under `GET`, and every operation has a row.
pub proof fn operations_ask_for_their_role(at: int, endpoint: Endpoint)
    ensures
        0 <= at < all_routes().len() ==> all_routes()[at].auth == match all_routes()[at].handler {
            Endpoint::Enroll => RequiredAuth::PublicBootstrap,
            Endpoint::Login => RequiredAuth::ClientOnly,
            Endpoint::Logout | Endpoint::Board | Endpoint::GetTask | Endpoint::Plugins => {
                RequiredAuth::Role(Role::Viewer)
            },
            Endpoint::CreateTask
            | Endpoint::TransitionTask
            | Endpoint::ClaimTask
            | Endpoint::BlockTask => RequiredAuth::Role(Role::Operator),
            Endpoint::GetConfig | Endpoint::PutConfig | Endpoint::Logs | Endpoint::Audit => {
                RequiredAuth::Role(Role::Admin)
            },
        },
        0 <= at < all_routes().len() ==> (all_routes()[at].method == "GET"@ <==> (
        all_routes()[at].handler is Board || all_routes()[at].handler is GetTask
            || all_routes()[at].handler is GetConfig || all_routes()[at].handler is Plugins
            || all_routes()[at].handler is Logs || all_routes()[at].handler is Audit)),
        exists|i: int|
            0 <= i < all_routes().len() && (#[trigger] all_routes()[i]).handler == endpoint,
{
    reveal_route_literals();
    let rows = all_routes();
    assert(rows[0].handler is Enroll && rows[1].handler is Login && rows[2].handler is Logout);
    assert(rows[3].handler is Board && rows[4].handler is GetTask && rows[5].handler is CreateTask);
    assert(rows[6].handler is TransitionTask && rows[7].handler is ClaimTask);
    assert(rows[8].handler is BlockTask && rows[9].handler is GetConfig);
    assert(rows[10].handler is PutConfig && rows[11].handler is Plugins);
    assert(rows[12].handler is Logs && rows[13].handler is Audit);
}

/// A table is gated exactly if what is public is the enrollment path, and what
/// does without a session is that or the login path.
pub proof fn gates_are_for_their_paths(table: Seq<RouteView>)
    ensures
        all_gated(table) <==> forall|i: int|
            0 <= i < table.len() ==> ((#[trigger] table[i]).auth is PublicBootstrap
                ==> table[i].path == "/api/enroll"@) && (table[i].auth is ClientOnly
                ==> table[i].path == "/api/login"@),
{
    if forall|i: int|
        0 <= i < table.len() ==> ((#[trigger] table[i]).auth is PublicBootstrap ==> table[i].path
            == "/api/enroll"@) && (table[i].auth is ClientOnly ==> table[i].path
            == "/api/login"@) {
        assert forall|i: int| 0 <= i < table.len() implies gated(#[trigger] table[i]) by {}
    }
    if all_gated(table) {
        assert forall|i: int| 0 <= i < table.len() implies ((
        #[trigger] table[i]).auth is PublicBootstrap ==> table[i].path == "/api/enroll"@) && (
        table[i].auth is ClientOnly ==> table[i].path == "/api/login"@) by {
            assert(gated(table[i]));
        }
    }
}

/// What is said of a route that cannot be mounted names its method and its path,
/// whole, and what is wrong with it.
pub proof fn refused_routes_are_named(route: RouteView)
    ensures
        ({
            let named = route.method + " "@ + route.path;
            &&& route.auth is PublicBootstrap ==> ungated_message(route)
                == "only /api/enroll may be PublicBootstrap; "@ + named + " is not"@
            &&& route.auth is ClientOnly ==> ungated_message(route)
                == "only /api/login may be ClientOnly; "@ + named + " is not"@
            &&& overlap_message(route) == "Overlapping method route. Handler for `"@ + named
                + "` already exists"@
        }),
{
    let named = route.method + " "@ + route.path;
    assert("only /api/enroll may be PublicBootstrap; "@ + named + " is not"@
        =~= "only /api/enroll may be PublicBootstrap; "@ + route.method + " "@ + route.path
        + " is not"@);
    assert("only /api/login may be ClientOnly; "@ + named + " is not"@
        =~= "only /api/login may be ClientOnly; "@ + route.method + " "@ + route.path
        + " is not"@);
    assert("Overlapping method route. Handler for `"@ + named + "` already exists"@
        =~= "Overlapping method route. Handler for `"@ + route.method + " "@ + route.path
        + "` already exists"@);
}

} // verus!
