//! Requests on their way from the route table to an operation.

use wyrtloom_dashboard::auth::{RequestHead, RequiredAuth};
use wyrtloom_dashboard::enforcement::{Action, Event};
use wyrtloom_dashboard::handlers::EnrollBody;
use wyrtloom_dashboard::operations::{Call, Step};
use wyrtloom_dashboard::reply::Body;
use wyrtloom_dashboard::routes::{route_table, Endpoint, RouteSpec};
use wyrtloom_dashboard::service::{
    dispatch, open, operation, refuse_unrouted, Dispatch, Passage,
};
use wyrtloom_dashboard::users::Role;

fn found(method: &str, path: &str) -> RouteSpec {
    match dispatch(&route_table(), method, Some(path)) {
        Dispatch::Found { route } => route,
        other => panic!("{other:?}"),
    }
}

#[test]
fn every_row_is_found_by_its_method_and_path() {
    for route in route_table() {
        let hit = found(route.method, route.path);
        assert_eq!((hit.handler, hit.auth), (route.handler, route.auth));
    }
}

#[test]
fn rows_that_share_a_path_keep_their_own() {
    assert_eq!(found("GET", "/api/config").handler, Endpoint::GetConfig);
    assert_eq!(found("PUT", "/api/config").handler, Endpoint::PutConfig);
    assert_eq!(found("HEAD", "/api/config").handler, Endpoint::GetConfig);
    assert_eq!(found("PUT", "/api/config").auth, RequiredAuth::Role(Role::Admin));
}

#[test]
fn unknown_paths_are_404() {
    for dispatched in [
        dispatch(&route_table(), "GET", None),
        dispatch(&route_table(), "GET", Some("/api/nothing")),
        dispatch(&[], "GET", Some("/api/board")),
    ] {
        assert!(matches!(dispatched, Dispatch::NotFound));
        let answer = refuse_unrouted(&dispatched);
        assert_eq!(answer.status.code(), 404);
        assert!(matches!(answer.body, Body::Error { message } if message == "not found"));
    }
}

#[test]
fn other_methods_are_405() {
    let dispatched = dispatch(&route_table(), "DELETE", Some("/api/config"));
    match &dispatched {
        Dispatch::MethodNotAllowed { allowed } => assert_eq!(allowed, &vec!["GET", "HEAD", "PUT"]),
        other => panic!("{other:?}"),
    }
    let answer = refuse_unrouted(&dispatched);
    assert_eq!(answer.status.code(), 405);
    assert!(matches!(answer.body, Body::Error { message } if message == "method not allowed"));
    let posts = dispatch(&route_table(), "HEAD", Some("/api/login"));
    assert!(matches!(posts, Dispatch::MethodNotAllowed { allowed } if allowed == vec!["POST"]));
}

fn head() -> RequestHead {
    RequestHead {
        method: "POST".to_string(),
        path: "/api/enroll".to_string(),
        headers: vec![],
        peer: None,
    }
}

#[test]
fn passes_are_for_their_rows_operation() {
    let exchange = match open(found("POST", "/api/enroll"), head()) {
        Passage::Asking { exchange, action: Action::SpendToken { key } } => {
            assert_eq!(key, "unknown");
            exchange
        }
        _ => panic!("no token was asked for"),
    };
    let pass = match exchange.step(Event::TokenSpent { allowed: true }) {
        Passage::Admitted { pass } => pass,
        _ => panic!("not let through"),
    };
    assert_eq!(pass.handler(), Endpoint::Enroll);
    let call = Call::Enroll {
        body: EnrollBody {
            api_key: "k".to_string(),
            client_name: "c".to_string(),
            public_key_b64: "aGVsbG8=".to_string(),
        },
    };
    assert_eq!(operation(&call), pass.handler());
    let (_, step) = pass.enter(call);
    assert!(matches!(step, Step::Enroll { request } if request.public_key == b"hello"));
}

#[test]
fn refusals_are_the_rows_own() {
    let exchange = match open(found("POST", "/api/enroll"), head()) {
        Passage::Asking { exchange, .. } => exchange,
        _ => panic!("nothing was asked for"),
    };
    match exchange.step(Event::TokenSpent { allowed: false }) {
        Passage::Refused { answer } => assert_eq!(answer.status.code(), 429),
        _ => panic!("not refused"),
    }
    // A role's row asks for the body first, and refuses without a signature.
    let exchange = match open(found("GET", "/api/audit"), head()) {
        Passage::Asking { exchange, action: Action::ReadBody { limit } } => {
            assert_eq!(limit, 65536);
            exchange
        }
        _ => panic!("no body was asked for"),
    };
    match exchange.step(Event::Body { body: Some(vec![]) }) {
        Passage::Refused { answer } => assert_eq!(answer.status.code(), 401),
        _ => panic!("not refused"),
    }
}

#[test]
fn bodies_over_the_limit_are_413() {
    for (len, status) in [(65536, 401), (65537, 413)] {
        let exchange = match open(found("GET", "/api/audit"), head()) {
            Passage::Asking { exchange, action: Action::ReadBody { limit: 65536 } } => exchange,
            _ => panic!("no body was asked for"),
        };
        match exchange.step(Event::Body { body: Some(vec![0; len]) }) {
            Passage::Refused { answer } => assert_eq!(answer.status.code(), status),
            _ => panic!("not refused"),
        }
    }
}

#[test]
fn methods_and_paths_are_compared_exactly() {
    for (method, path) in [
        ("get", "/api/config"),
        ("GET", "/api/confi\u{261}"),
        ("GET", "/api/confi"),
        ("GET", "/api/config/"),
    ] {
        let dispatched = dispatch(&route_table(), method, Some(path));
        assert!(!matches!(dispatched, Dispatch::Found { .. }), "{method} {path}");
    }
}
