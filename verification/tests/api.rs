//! Requests driven through the middleware and the endpoints, with an in-memory
//! world behind them.

use base64::Engine;
use sha2::Digest;

use wyrtloom_dashboard::auth::{AuthContext, PresentedClientAuth, RequestHead, RequiredAuth};
use wyrtloom_dashboard::canonical::canonical_request;
use wyrtloom_dashboard::enforcement::{enforce, Action, Event};
use wyrtloom_dashboard::handlers::{Authentication, BoardParams, EnrollBody, LoginBody};
use wyrtloom_dashboard::headers::HeaderEntry;
use wyrtloom_dashboard::kanban::TaskState;
use wyrtloom_dashboard::operations::{begin, Call, Outcome, Step};
use wyrtloom_dashboard::reply::{Answer, Body, Decision, Rejection, Status};
use wyrtloom_dashboard::routes::{assert_all_routes_gated, route_table, Endpoint};
use wyrtloom_dashboard::session::{hex, mint, SessionPayload, Stamp};
use wyrtloom_dashboard::state::{
    now_unix, now_unix_checked, revocation_status, RateLimiter, RevocationRecord, StoreLookup,
};
use wyrtloom_dashboard::users::{Role, User};

const CLIENT_ID: &str = "test-spa-client";
const CLIENT_KEY: &[u8] = b"client key";
const SECURITY_KEY: &[u8] = &[9u8; 32];

/// A keyed digest, standing in for signatures and stamps.
fn keyed(key: &[u8], bytes: &[u8]) -> [u8; 32] {
    let mut hasher = sha2::Sha256::new();
    hasher.update(key);
    hasher.update(bytes);
    hasher.finalize().into()
}

fn role_name(role: &Role) -> serde_json::Value {
    serde_json::Value::from(role.name())
}

fn encode(payload: &SessionPayload) -> Vec<u8> {
    let mut map = serde_json::Map::new();
    map.insert("user_id".to_string(), serde_json::Value::from(payload.user_id.as_str()));
    map.insert(
        "roles".to_string(),
        serde_json::Value::from(payload.roles.iter().map(role_name).collect::<Vec<_>>()),
    );
    map.insert("exp_unix".to_string(), serde_json::Value::from(payload.exp_unix));
    map.insert("nonce".to_string(), serde_json::Value::from(payload.nonce.as_str()));
    serde_json::to_vec(&serde_json::Value::Object(map)).unwrap()
}

fn decode(bytes: &[u8]) -> Option<SessionPayload> {
    let value: serde_json::Value = serde_json::from_slice(bytes).ok()?;
    let mut roles = Vec::new();
    for role in value.get("roles")?.as_array()? {
        roles.push(match role.as_str()? {
            "Viewer" => Role::Viewer,
            "Operator" => Role::Operator,
            "Admin" => Role::Admin,
            _ => return None,
        });
    }
    Some(SessionPayload {
        user_id: value.get("user_id")?.as_str()?.to_string(),
        roles,
        exp_unix: value.get("exp_unix")?.as_i64()?,
        nonce: value.get("nonce")?.as_str()?.to_string(),
    })
}

struct Harness {
    users: Vec<(User, String)>,
    denylist: Vec<(String, i64)>,
    store_fails: bool,
    invalidated: Vec<[u8; 32]>,
    limiter: RateLimiter,
    chain: Vec<String>,
    bootstrap_keys: Vec<String>,
    stamp_checks: usize,
    lookups: usize,
    clock_broken: bool,
    slots: usize,
}

struct Request {
    method: String,
    path: String,
    headers: Vec<(String, Vec<u8>)>,
    body: Vec<u8>,
}

impl Request {
    fn without(mut self, name: &str) -> Request {
        self.headers.retain(|(found, _)| found != name);
        self
    }

    fn with(self, name: &str, value: &str) -> Request {
        let mut request = self.without(name);
        request.headers.push((name.to_string(), value.as_bytes().to_vec()));
        request
    }
}

impl Harness {
    fn new() -> Harness {
        Harness {
            users: Vec::new(),
            denylist: Vec::new(),
            store_fails: false,
            invalidated: Vec::new(),
            limiter: RateLimiter::new(1_000_000_000_000, 1_000_000_000_000),
            chain: Vec::new(),
            bootstrap_keys: Vec::new(),
            stamp_checks: 0,
            lookups: 0,
            clock_broken: false,
            slots: 0,
        }
    }

    fn create_user(&mut self, username: &str, password: &str, roles: Vec<Role>) {
        let user = User { id: username.to_string(), roles, active: true };
        self.users.push((user, password.to_string()));
    }

    fn stamp(&mut self, bytes: &[u8]) -> Stamp {
        let stamp = keyed(SECURITY_KEY, bytes);
        self.chain.push(format!("stamp {}", hex(&stamp)));
        Stamp(stamp)
    }

    fn record(&mut self, decision: &Decision) {
        self.chain.push(format!("{} {}", decision.allowed, decision.detail));
    }

    fn signed_request(
        &self,
        method: &str,
        path: &str,
        body: &[u8],
        bearer: Option<&str>,
    ) -> Request {
        let timestamp = now_unix();
        let nonce = format!("n-{path}");
        let digest = sha2::Sha256::digest(body);
        let canonical =
            canonical_request(method, path, digest.as_slice(), CLIENT_ID, timestamp, &nonce);
        let signature = hex(&keyed(CLIENT_KEY, &canonical));
        let request = Request {
            method: method.to_string(),
            path: path.to_string(),
            headers: Vec::new(),
            body: body.to_vec(),
        }
        .with("x-wyrtloom-client", CLIENT_ID)
        .with("x-wyrtloom-timestamp", &timestamp.to_string())
        .with("x-wyrtloom-nonce", &nonce)
        .with("x-wyrtloom-signature", &signature)
        .with("content-type", "application/json");
        match bearer {
            Some(token) => request.with("authorization", &format!("Bearer {token}")),
            None => request,
        }
    }

    fn mint_token(&mut self, username: &str, roles: Vec<Role>, exp_unix: i64, nonce: &str) -> String {
        let payload = SessionPayload {
            user_id: username.to_string(),
            roles,
            exp_unix,
            nonce: nonce.to_string(),
        };
        let json = encode(&payload);
        let stamp = self.stamp(&json);
        mint(&json, &stamp)
    }

    fn verify(&self, presented: &PresentedClientAuth) -> Option<String> {
        let expected = keyed(CLIENT_KEY, &presented.canonical_request);
        if presented.client_id == CLIENT_ID && presented.signature == expected {
            Some(presented.client_id.clone())
        } else {
            None
        }
    }

    /// Runs the middleware.
    fn gatekeep(&mut self, required: RequiredAuth, request: &Request) -> Result<AuthContext, Rejection> {
        let head = RequestHead {
            method: request.method.clone(),
            path: request.path.clone(),
            headers: request
                .headers
                .iter()
                .map(|(name, value)| HeaderEntry { name: name.clone(), value: value.clone() })
                .collect(),
            peer: Some("127.0.0.1".to_string()),
        };
        let (mut machine, mut action) = enforce(required, head);
        loop {
            let event = match action {
                Action::SpendToken { key } => {
                    Event::TokenSpent { allowed: self.limiter.check(&key, 0) }
                }
                Action::ReadBody { limit } => Event::Body {
                    body: if request.body.len() <= limit {
                        Some(request.body.clone())
                    } else {
                        None
                    },
                },
                Action::VerifyClient { presented } => {
                    Event::Client { client_id: self.verify(&presented) }
                }
                Action::StampRequest { canonical } => {
                    self.stamp(&canonical);
                    Event::Done
                }
                Action::DecodePayload { payload } => Event::Payload { payload: decode(&payload) },
                Action::ReadClock => Event::Clock {
                    now: if self.clock_broken { None } else { now_unix_checked() },
                },
                Action::CheckStamp { stamp, payload } => {
                    self.stamp_checks += 1;
                    let valid = stamp.0 == keyed(SECURITY_KEY, &payload)
                        && !self.invalidated.contains(&stamp.0);
                    Event::StampValid { valid }
                }
                Action::LookUpRevocation { nonce } => {
                    self.lookups += 1;
                    let lookup = if self.store_fails {
                        StoreLookup::Failed
                    } else if self.denylist.iter().any(|(id, _)| *id == nonce) {
                        StoreLookup::Found
                    } else {
                        StoreLookup::NotFound
                    };
                    Event::Revocation { status: revocation_status(lookup) }
                }
                Action::FetchUser { user_id } => Event::Fetched {
                    user: self
                        .users
                        .iter()
                        .find(|(user, _)| user.id == user_id)
                        .map(|(user, _)| user.clone()),
                },
                Action::Record { decision } => {
                    self.record(&decision);
                    Event::Done
                }
                Action::Admit { context } => return Ok(context),
                Action::Reject { rejection } => return Err(rejection),
            };
            let (next, asked) = machine.step(event);
            machine = next;
            action = asked;
        }
    }

    /// Runs an endpoint.
    fn handle(&mut self, call: Call, context: AuthContext, listing: &[TaskState]) -> Answer {
        let (mut progress, mut step) = begin(call, context);
        loop {
            let outcome = match step {
                Step::Enroll { request } => {
                    let known = self.bootstrap_keys.iter().position(|key| *key == request.api_key);
                    if let Some(at) = known {
                        self.bootstrap_keys.remove(at);
                    }
                    Outcome::Accepted { accepted: known.is_some() && request.public_key.len() == 32 }
                }
                Step::TakeSlot => {
                    self.slots += 1;
                    Outcome::Done
                }
                Step::Authenticate { username, password } => {
                    let found = self
                        .users
                        .iter()
                        .find(|(user, secret)| user.id == username && *secret == password);
                    Outcome::Authenticated {
                        outcome: match found {
                            Some((user, _)) => Authentication::Accepted { user: user.clone() },
                            None => Authentication::Refused,
                        },
                    }
                }
                Step::DrawNonce => Outcome::Random { bytes: [7; 16] },
                Step::ReadClock => Outcome::Clock { now: now_unix() },
                Step::EncodePayload { payload } => {
                    Outcome::Encoded { payload_json: encode(&payload) }
                }
                Step::StampPayload { payload_json } => {
                    Outcome::Stamped { stamp: self.stamp(&payload_json) }
                }
                Step::Record { decision } => {
                    self.record(&decision);
                    Outcome::Done
                }
                Step::ListRevocations => Outcome::Revocations {
                    records: Some(
                        self.denylist
                            .iter()
                            .map(|(id, exp)| RevocationRecord {
                                id: id.clone(),
                                exp_unix: Some(*exp),
                            })
                            .collect(),
                    ),
                },
                Step::Revoke { plan } => {
                    self.denylist.retain(|(id, _)| !plan.delete.contains(id));
                    if !self.store_fails {
                        self.denylist.push((plan.put.id, plan.put.exp_unix.unwrap()));
                    }
                    Outcome::Accepted { accepted: !self.store_fails }
                }
                Step::InvalidateStamp { payload_bytes } => {
                    let stamp = self.stamp(&payload_bytes);
                    self.invalidated.push(stamp.0);
                    Outcome::Done
                }
                Step::ListBoard { states } => Outcome::Listed {
                    states: Some(
                        listing
                            .iter()
                            .filter(|state| match &states {
                                Some(wanted) => wanted.contains(state),
                                None => true,
                            })
                            .copied()
                            .collect(),
                    ),
                },
                Step::ReadAudit => Outcome::Chain { verified: true },
                Step::Answer { answer } => return answer,
                other => panic!("unexpected step {other:?}"),
            };
            let (next, asked) = progress.follow(outcome);
            progress = next;
            step = asked;
        }
    }

    fn gate(&self, endpoint: Endpoint) -> RequiredAuth {
        route_table().iter().find(|route| route.handler == endpoint).unwrap().auth
    }

    /// The status of a request: the middleware's, or the endpoint's.
    fn respond(&mut self, endpoint: Endpoint, call: Call, request: &Request) -> Answer {
        match self.gatekeep(self.gate(endpoint), request) {
            Ok(context) => self.handle(call, context, &[]),
            Err(rejection) => rejection.answer(),
        }
    }

    fn board(&mut self, request: &Request) -> Answer {
        self.respond(Endpoint::Board, Call::Board { params: BoardParams { states: None } }, request)
    }

    fn login(&mut self, username: &str, password: &str) -> Answer {
        let request = self.signed_request("POST", "/api/login", b"credentials", None);
        let body = LoginBody { username: username.to_string(), password: password.to_string() };
        self.respond(Endpoint::Login, Call::Login { body }, &request)
    }
}

fn error_of(answer: &Answer) -> &str {
    match &answer.body {
        Body::Error { message } => message,
        other => panic!("no error: {other:?}"),
    }
}

fn token_of(answer: &Answer) -> String {
    match &answer.body {
        Body::Session { token, .. } => token.clone(),
        other => panic!("no session: {other:?}"),
    }
}

#[test]
fn login_then_board_succeeds() {
    let mut h = Harness::new();
    h.create_user("alice", "pw-correct", vec![Role::Viewer]);

    let before = now_unix();
    let answer = h.login("alice", "pw-correct");
    assert_eq!(answer.status, Status::Success, "login should succeed: {answer:?}");
    match &answer.body {
        Body::Session { exp_unix, .. } => {
            assert!(*exp_unix >= before + 1800 && *exp_unix <= now_unix() + 1800)
        }
        other => panic!("no session: {other:?}"),
    }
    assert_eq!(h.chain.last().unwrap(), "true login ok user=alice");
    assert_eq!(h.slots, 1);
    let token = token_of(&answer);

    let request = h.signed_request("GET", "/api/board", b"", Some(&token));
    assert_eq!(h.board(&request).status, Status::Success);
}

#[test]
fn missing_token_is_401() {
    let mut h = Harness::new();
    let request = h.signed_request("GET", "/api/board", b"", None);
    let answer = h.board(&request);
    assert_eq!(answer.status, Status::Unauthorized);
    assert_eq!(answer.status.code(), 401);
    assert_eq!(error_of(&answer), "missing session");
}

#[test]
fn bad_client_signature_is_401() {
    let mut h = Harness::new();
    h.create_user("alice", "pw", vec![Role::Viewer]);
    let token = h.mint_token("alice", vec![Role::Viewer], now_unix() + 600, "nonce1");

    let request = h
        .signed_request("GET", "/api/board", b"", Some(&token))
        .with("x-wyrtloom-signature", "00ff");
    let answer = h.board(&request);
    assert_eq!(answer.status, Status::Unauthorized);
    assert_eq!(error_of(&answer), "client auth failed");
}

#[test]
fn absent_client_signature_is_401() {
    let mut h = Harness::new();
    h.create_user("alice", "pw", vec![Role::Viewer]);
    let token = h.mint_token("alice", vec![Role::Viewer], now_unix() + 600, "nonce1");

    let request = Request {
        method: "GET".to_string(),
        path: "/api/board".to_string(),
        headers: Vec::new(),
        body: Vec::new(),
    }
    .with("authorization", &format!("Bearer {token}"));
    let answer = h.board(&request);
    assert_eq!(answer.status, Status::Unauthorized);
    assert_eq!(error_of(&answer), "missing client auth");
}

#[test]
fn viewer_hitting_operator_route_is_403() {
    let mut h = Harness::new();
    h.create_user("vic", "pw", vec![Role::Viewer]);
    let token = token_of(&h.login("vic", "pw"));

    let request = h.signed_request("POST", "/api/tasks", b"{\"title\":\"t\"}", Some(&token));
    let rejection = h.gatekeep(h.gate(Endpoint::CreateTask), &request).unwrap_err();
    assert_eq!(rejection.status, Status::Forbidden);
    assert_eq!(rejection.status.code(), 403);
    assert_eq!(rejection.message, "forbidden");
    assert_eq!(h.chain.last().unwrap(), "false rbac deny user=vic role=Operator");
}

#[test]
fn viewer_hitting_admin_route_is_403() {
    let mut h = Harness::new();
    h.create_user("vic", "pw", vec![Role::Viewer]);
    let token = h.mint_token("vic", vec![Role::Viewer], now_unix() + 600, "n");
    let request = h.signed_request("GET", "/api/audit", b"", Some(&token));
    assert_eq!(h.respond(Endpoint::Audit, Call::Audit, &request).status, Status::Forbidden);
}

#[test]
fn admin_role_does_not_stand_in_for_viewer() {
    let mut h = Harness::new();
    h.create_user("root", "pw", vec![Role::Admin, Role::Operator]);
    let token = token_of(&h.login("root", "pw"));
    let request = h.signed_request("GET", "/api/board", b"", Some(&token));
    assert_eq!(h.board(&request).status, Status::Forbidden);
    let request = h.signed_request("GET", "/api/audit", b"", Some(&token));
    assert_eq!(h.respond(Endpoint::Audit, Call::Audit, &request).status, Status::Success);
}

#[test]
fn expired_token_is_401() {
    let mut h = Harness::new();
    h.create_user("alice", "pw", vec![Role::Viewer]);
    let token = h.mint_token("alice", vec![Role::Viewer], now_unix() - 10, "expired-n");
    let request = h.signed_request("GET", "/api/board", b"", Some(&token));
    let answer = h.board(&request);
    assert_eq!(answer.status, Status::Unauthorized);
    assert_eq!(error_of(&answer), "session expired");
    assert_eq!((h.stamp_checks, h.lookups), (0, 0));
}

#[test]
fn token_is_fresh_through_its_last_second() {
    let mut h = Harness::new();
    h.create_user("alice", "pw", vec![Role::Viewer]);
    let token = h.mint_token("alice", vec![Role::Viewer], i64::MAX, "n");
    let request = h.signed_request("GET", "/api/board", b"", Some(&token));
    assert_eq!(h.board(&request).status, Status::Success);
}

#[test]
fn broken_clock_expires_every_session() {
    let mut h = Harness::new();
    h.create_user("alice", "pw", vec![Role::Viewer]);
    h.clock_broken = true;
    let token = h.mint_token("alice", vec![Role::Viewer], i64::MAX, "n");
    let request = h.signed_request("GET", "/api/board", b"", Some(&token));
    let answer = h.board(&request);
    assert_eq!(answer.status, Status::Unauthorized);
    assert_eq!(error_of(&answer), "session expired");
}

#[test]
fn logout_then_reuse_is_401() {
    let mut h = Harness::new();
    h.create_user("alice", "pw", vec![Role::Viewer]);
    let exp = now_unix() + 600;
    let token = h.mint_token("alice", vec![Role::Viewer], exp, "logout-n");
    h.denylist.push(("stale".to_string(), now_unix() - 1000));
    h.denylist.push(("live".to_string(), now_unix() + 1000));

    let request = h.signed_request("POST", "/api/logout", b"", Some(&token));
    let answer = h.respond(Endpoint::Logout, Call::Logout, &request);
    assert_eq!(answer.status, Status::Success);
    assert!(matches!(answer.body, Body::Acknowledged));
    let revoked: Vec<&str> = h.denylist.iter().map(|(id, _)| id.as_str()).collect();
    assert_eq!(revoked, vec!["live", "logout-n"]);
    assert_eq!(h.denylist[1].1, exp);
    assert_eq!(h.invalidated.len(), 1);

    let request = h.signed_request("GET", "/api/board", b"", Some(&token));
    let answer = h.board(&request);
    assert_eq!(answer.status, Status::Unauthorized);
    assert_eq!(error_of(&answer), "session invalid");

    // The denylist alone keeps it out, too.
    h.invalidated.clear();
    let answer = h.board(&request);
    assert_eq!(answer.status, Status::Unauthorized);
    assert_eq!(error_of(&answer), "session invalid");
}

#[test]
fn failed_revocation_is_500_and_leaves_the_stamp() {
    let mut h = Harness::new();
    h.create_user("alice", "pw", vec![Role::Viewer]);
    let token = h.mint_token("alice", vec![Role::Viewer], now_unix() + 600, "n");
    let request = h.signed_request("POST", "/api/logout", b"", Some(&token));
    let context = h.gatekeep(h.gate(Endpoint::Logout), &request).unwrap();
    h.store_fails = true;
    let answer = h.handle(Call::Logout, context, &[]);
    assert_eq!(answer.status.code(), 500);
    assert_eq!(error_of(&answer), "revocation failed");
    assert!(h.invalidated.is_empty());
}

#[test]
fn logout_without_a_session_is_401() {
    let mut h = Harness::new();
    let context = AuthContext {
        client_id: CLIENT_ID.to_string(),
        user: None,
        session: None,
        session_bytes: None,
    };
    let answer = h.handle(Call::Logout, context, &[]);
    assert_eq!(answer.status, Status::Unauthorized);
    assert_eq!(error_of(&answer), "no session");
}

#[test]
fn disabled_user_next_request_denied() {
    let mut h = Harness::new();
    h.create_user("alice", "pw", vec![Role::Viewer]);
    let token = h.mint_token("alice", vec![Role::Viewer], now_unix() + 600, "n");

    let request = h.signed_request("GET", "/api/board", b"", Some(&token));
    assert_eq!(h.board(&request).status, Status::Success);

    h.users[0].0.active = false;

    let answer = h.board(&request);
    assert_eq!(
        answer.status,
        Status::Unauthorized,
        "disabled user must be rejected on the next request"
    );
    assert_eq!(error_of(&answer), "user disabled");

    h.users.clear();
    let answer = h.board(&request);
    assert_eq!(answer.status, Status::Unauthorized);
    assert_eq!(error_of(&answer), "unknown user");
}

#[test]
fn role_change_demotion_denied_on_next_request() {
    let mut h = Harness::new();
    h.create_user("op", "pw", vec![Role::Operator, Role::Viewer]);
    let token =
        h.mint_token("op", vec![Role::Operator, Role::Viewer], now_unix() + 600, "n");

    let request = h.signed_request("POST", "/api/tasks", b"{\"title\":\"t\"}", Some(&token));
    assert!(h.gatekeep(h.gate(Endpoint::CreateTask), &request).is_ok());

    h.users[0].0.roles = vec![Role::Viewer];

    let rejection = h.gatekeep(h.gate(Endpoint::CreateTask), &request).unwrap_err();
    assert_eq!(rejection.status, Status::Forbidden);
}

#[test]
fn enroll_happy_path() {
    let mut h = Harness::new();
    h.bootstrap_keys.push("fresh-bootstrap-key".to_string());
    let body = EnrollBody {
        api_key: "fresh-bootstrap-key".to_string(),
        client_name: "another-client".to_string(),
        public_key_b64: base64::engine::general_purpose::STANDARD.encode([5u8; 32]),
    };
    let request = Request {
        method: "POST".to_string(),
        path: "/api/enroll".to_string(),
        headers: Vec::new(),
        body: Vec::new(),
    }
    .with("content-type", "application/json");
    let answer = h.respond(Endpoint::Enroll, Call::Enroll { body }, &request);
    assert_eq!(answer.status, Status::Success, "enroll should succeed: {answer:?}");
    assert!(matches!(answer.body, Body::Credential));
}

#[test]
fn enroll_with_bad_key_is_rejected() {
    let mut h = Harness::new();
    let body = EnrollBody {
        api_key: "not-a-real-bootstrap-key".to_string(),
        client_name: "x".to_string(),
        public_key_b64: base64::engine::general_purpose::STANDARD.encode([5u8; 32]),
    };
    let request = Request {
        method: "POST".to_string(),
        path: "/api/enroll".to_string(),
        headers: Vec::new(),
        body: Vec::new(),
    };
    let answer = h.respond(Endpoint::Enroll, Call::Enroll { body }, &request);
    assert_eq!(answer.status, Status::Unauthorized);
    assert_eq!(error_of(&answer), "enrollment rejected");
}

#[test]
fn login_with_bad_credentials_is_401_and_recorded() {
    let mut h = Harness::new();
    h.create_user("alice", "pw", vec![Role::Viewer]);
    let answer = h.login("alice", "wrong");
    assert_eq!(answer.status, Status::Unauthorized);
    assert_eq!(error_of(&answer), "invalid credentials");
    assert_eq!(h.chain.last().unwrap(), "false login failed");
}

#[test]
fn route_gate_enumeration_no_default_open() {
    let table = route_table();
    assert!(!table.is_empty());
    assert_eq!(assert_all_routes_gated(&table), Ok(()));

    let public: Vec<_> = table
        .iter()
        .filter(|r| matches!(r.auth, RequiredAuth::PublicBootstrap))
        .map(|r| r.path)
        .collect();
    assert_eq!(public, vec!["/api/enroll"], "only enroll may be public");

    let client_only: Vec<_> = table
        .iter()
        .filter(|r| matches!(r.auth, RequiredAuth::ClientOnly))
        .map(|r| r.path)
        .collect();
    assert_eq!(client_only, vec!["/api/login"], "only login may be client-only");
}

#[test]
fn revoked_nonce_with_invalid_stamp_does_not_leak_via_distinct_body() {
    let mut h = Harness::new();
    h.create_user("alice", "pw", vec![Role::Viewer]);
    h.denylist.push(("known-revoked".to_string(), now_unix() + 600));

    for nonce in ["known-revoked", "never-seen"] {
        let payload = SessionPayload {
            user_id: "alice".to_string(),
            roles: vec![Role::Viewer],
            exp_unix: now_unix() + 600,
            nonce: nonce.to_string(),
        };
        let b64 = base64::engine::general_purpose::STANDARD.encode(encode(&payload));
        let forged = format!("{b64}.{}", hex(&[0u8; 32]));
        let request = h.signed_request("GET", "/api/board", b"", Some(&forged));
        let answer = h.board(&request);
        assert_eq!(answer.status, Status::Unauthorized);
        assert_eq!(error_of(&answer), "session invalid");
    }
    assert_eq!(h.lookups, 0);
}

#[test]
fn uncertain_denylist_is_503() {
    let mut h = Harness::new();
    h.create_user("alice", "pw", vec![Role::Viewer]);
    h.store_fails = true;
    let token = h.mint_token("alice", vec![Role::Viewer], now_unix() + 600, "n");
    let request = h.signed_request("GET", "/api/board", b"", Some(&token));
    let answer = h.board(&request);
    assert_eq!(answer.status.code(), 503);
    assert_eq!(error_of(&answer), "revocation status unavailable");
}

#[test]
fn verified_request_produces_audit_entry_and_chain_verifies() {
    let mut h = Harness::new();
    h.create_user("alice", "pw", vec![Role::Viewer]);
    let token = h.mint_token("alice", vec![Role::Viewer], now_unix() + 600, "n-audit");

    let before = h.chain.len();
    let request = h.signed_request("GET", "/api/board", b"", Some(&token));
    assert_eq!(h.board(&request).status, Status::Success);

    assert!(
        h.chain.len() > before,
        "a verified request must append at least one audit entry"
    );
    assert!(h.chain[before].starts_with("stamp "));
    assert_eq!(
        h.chain[before + 1],
        format!("true grant client={CLIENT_ID} user=alice GET /api/board")
    );
    assert_eq!(h.chain.len(), before + 2);
}

#[test]
fn signature_covers_the_query() {
    let mut h = Harness::new();
    h.create_user("alice", "pw", vec![Role::Viewer]);
    let token = h.mint_token("alice", vec![Role::Viewer], now_unix() + 600, "n");
    let mut request = h.signed_request("GET", "/api/board?states=Todo", b"", Some(&token));
    assert_eq!(h.board(&request).status, Status::Success);
    request.path = "/api/board?states=Done".to_string();
    assert_eq!(error_of(&h.board(&request)), "client auth failed");
}

#[test]
fn signature_covers_the_body() {
    let mut h = Harness::new();
    let mut request = h.signed_request("POST", "/api/login", b"one", None);
    assert!(h.gatekeep(RequiredAuth::ClientOnly, &request).is_ok());
    request.body = b"two".to_vec();
    let rejection = h.gatekeep(RequiredAuth::ClientOnly, &request).unwrap_err();
    assert_eq!(rejection.message, "client auth failed");
}

#[test]
fn unreadable_client_headers_are_401() {
    let mut h = Harness::new();
    for (name, value) in [
        ("x-wyrtloom-timestamp", "soon"),
        ("x-wyrtloom-timestamp", "99999999999999999999"),
        ("x-wyrtloom-signature", "abc"),
        ("x-wyrtloom-signature", "zz"),
    ] {
        let request = h.signed_request("POST", "/api/login", b"", None).with(name, value);
        let rejection = h.gatekeep(RequiredAuth::ClientOnly, &request).unwrap_err();
        assert_eq!(rejection.status, Status::Unauthorized);
        assert_eq!(rejection.message, "bad client auth");
    }
    for name in [
        "x-wyrtloom-client",
        "x-wyrtloom-timestamp",
        "x-wyrtloom-nonce",
        "x-wyrtloom-signature",
    ] {
        let request = h.signed_request("POST", "/api/login", b"", None).without(name);
        let rejection = h.gatekeep(RequiredAuth::ClientOnly, &request).unwrap_err();
        assert_eq!(rejection.message, "missing client auth");
    }
}

#[test]
fn malformed_tokens_are_bad_sessions() {
    let mut h = Harness::new();
    let not_json = base64::engine::general_purpose::STANDARD.encode(b"not json");
    let unsized_stamp = base64::engine::general_purpose::STANDARD.encode(b"{}");
    for token in [
        "no-dot".to_string(),
        "####.zz".to_string(),
        format!("{unsized_stamp}.00"),
        format!("{not_json}.{}", hex(&[0u8; 32])),
    ] {
        let request = h.signed_request("GET", "/api/board", b"", Some(&token));
        let answer = h.board(&request);
        assert_eq!(answer.status, Status::Unauthorized);
        assert_eq!(error_of(&answer), "bad session");
    }
    let request = h
        .signed_request("GET", "/api/board", b"", None)
        .with("authorization", "Basic YWxpY2U6cHc=");
    assert_eq!(error_of(&h.board(&request)), "missing session");
}

#[test]
fn oversized_body_is_413() {
    let mut h = Harness::new();
    let request = h.signed_request("POST", "/api/login", &vec![b'a'; 65536], None);
    assert!(h.gatekeep(RequiredAuth::ClientOnly, &request).is_ok());
    let request = h.signed_request("POST", "/api/login", &vec![b'a'; 65537], None);
    let rejection = h.gatekeep(RequiredAuth::ClientOnly, &request).unwrap_err();
    assert_eq!(rejection.status.code(), 413);
    assert_eq!(rejection.message, "request body too large");
}

#[test]
fn login_burst_is_429() {
    let mut h = Harness::new();
    h.limiter = RateLimiter::new(5_000_000_000, 1_000_000_000);
    h.create_user("alice", "pw", vec![Role::Viewer]);
    for _ in 0..5 {
        assert_eq!(h.login("alice", "pw").status, Status::Success);
    }
    let chain = h.chain.len();
    let answer = h.login("alice", "pw");
    assert_eq!(answer.status.code(), 429);
    assert_eq!(error_of(&answer), "rate limited");
    assert_eq!(h.chain.len(), chain);
}

#[test]
fn role_routes_spend_no_rate_limit_token() {
    let mut h = Harness::new();
    h.limiter = RateLimiter::new(0, 0);
    h.create_user("alice", "pw", vec![Role::Viewer]);
    let token = h.mint_token("alice", vec![Role::Viewer], now_unix() + 600, "n");
    let request = h.signed_request("GET", "/api/board", b"", Some(&token));
    assert_eq!(h.board(&request).status, Status::Success);
    assert_eq!(h.login("alice", "pw").status, Status::TooManyRequests);
}

#[test]
fn token_roles_do_not_decide() {
    let mut h = Harness::new();
    h.create_user("vic", "pw", vec![Role::Viewer]);
    let token = h.mint_token("vic", vec![Role::Admin], now_unix() + 600, "n");
    let request = h.signed_request("GET", "/api/audit", b"", Some(&token));
    assert_eq!(h.respond(Endpoint::Audit, Call::Audit, &request).status, Status::Forbidden);
    let token = h.mint_token("vic", vec![], now_unix() + 600, "n");
    let request = h.signed_request("GET", "/api/board", b"", Some(&token));
    assert_eq!(h.board(&request).status, Status::Success);
}

#[test]
fn bootstrap_identity_is_empty() {
    let mut h = Harness::new();
    let request = h.signed_request("POST", "/api/enroll", b"", None);
    let context = h.gatekeep(RequiredAuth::PublicBootstrap, &request).unwrap();
    assert_eq!(context.client_id, "");
    assert!(context.user.is_none() && context.session.is_none());
    let context = h.gatekeep(RequiredAuth::ClientOnly, &request).unwrap();
    assert_eq!(context.client_id, CLIENT_ID);
    assert!(context.user.is_none() && context.session_bytes.is_none());
}
