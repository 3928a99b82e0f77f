//! Client-signature auth, user-session auth, and role checks.
//!
//! Every route declares one [`RequiredAuth`]. Here are the rules of each layer;
//! [`crate::enforcement`] puts them in order.
//!
//! Order of a `Role` route:
//!   1. client signature over the canonical request bytes, which are then
//!      stamped into the audit chain;
//!   2. session: the bearer token is parsed, refused if expired before any MAC
//!      work, refused if its stamp is invalid, refused if its nonce is revoked,
//!      and the user is fetched again and refused if not active;
//!   3. the user's current roles are compared to the route's role.

use vstd::prelude::*;
use vstd::string::*;
use vstd::utf8::*;

use crate::canonical::{canonical_bytes, canonical_request};
use crate::decimal::{decimal_value, parse_i64};
use crate::headers::{header, header_text, header_views, HeaderEntry, HeaderView};
use crate::outside::{digest_sha256, sha256};
use crate::reply::{refusal, Decision, DecisionView, Rejection, RejectionView, Status};
use crate::session::{
    hex_bytes, hex_decode, parse, token_parts, SessionPayload, SessionPayloadView, Stamp,
};
use crate::state::RevocationStatus;
use crate::text::{after_prefix, strip_prefix};
use crate::users::{Role, User, UserView};

verus! {

/// Authentication requirement of a route. Every route declares exactly one.
#[derive(Debug, Clone, Copy, PartialEq, Eq, Structural)]
pub enum RequiredAuth {
    /// First-contact enrollment: no client signature, no session. Rate-limited.
    PublicBootstrap,
    /// Client signature, but no user session yet (login). Rate-limited.
    ClientOnly,
    /// Client signature, verified user session, and this role.
    Role(Role),
}

/// Header naming the enrolled client.
pub const H_CLIENT: &'static str = "x-wyrtloom-client";

/// Header with the Unix seconds of the request.
pub const H_TIMESTAMP: &'static str = "x-wyrtloom-timestamp";

/// Header with the per-request nonce.
pub const H_NONCE: &'static str = "x-wyrtloom-nonce";

/// Header with the hexadecimal signature.
pub const H_SIGNATURE: &'static str = "x-wyrtloom-signature";

/// Header with the session token.
pub const H_AUTHORIZATION: &'static str = "authorization";

/// What precedes the token in the authorization header.
pub const BEARER: &'static str = "Bearer ";

/// The bucket that requests without a known peer share.
pub const UNKNOWN_PEER: &'static str = "unknown";

/// What the checks read of a request before its body. `path` is the path with
/// the query, so that the query is covered by the signature.
#[derive(Debug)]
pub struct RequestHead {
    pub method: String,
    pub path: String,
    pub headers: Vec<HeaderEntry>,
    pub peer: Option<String>,
}

/// A request head as contracts see it.
pub struct RequestHeadView {
    pub method: Seq<char>,
    pub path: Seq<char>,
    pub headers: Seq<HeaderView>,
    pub peer: Option<Seq<char>>,
}

/// The characters of an optional string.
pub open spec fn text_view(text: Option<String>) -> Option<Seq<char>> {
    match text {
        Some(text) => Some(text@),
        None => None,
    }
}

impl View for RequestHead {
    type V = RequestHeadView;

    open spec fn view(&self) -> RequestHeadView {
        RequestHeadView {
            method: self.method@,
            path: self.path@,
            headers: header_views(self.headers@),
            peer: text_view(self.peer),
        }
    }
}

/// What a client presents to be verified.
#[derive(Debug)]
pub struct PresentedClientAuth {
    pub client_id: String,
    pub canonical_request: Vec<u8>,
    pub signature: Vec<u8>,
    pub timestamp: i64,
    pub nonce: String,
}

/// A presentation as contracts see it.
pub struct PresentedView {
    pub client_id: Seq<char>,
    pub canonical_request: Seq<u8>,
    pub signature: Seq<u8>,
    pub timestamp: i64,
    pub nonce: Seq<char>,
}

impl View for PresentedClientAuth {
    type V = PresentedView;

    open spec fn view(&self) -> PresentedView {
        PresentedView {
            client_id: self.client_id@,
            canonical_request: self.canonical_request@,
            signature: self.signature@,
            timestamp: self.timestamp,
            nonce: self.nonce@,
        }
    }
}

/// The verified identity handed to handlers. `user`, `session` and
/// `session_bytes` are there for `Role` routes only; `session_bytes` are the
/// exact payload bytes that the session stamp was verified over.
#[derive(Debug)]
pub struct AuthContext {
    pub client_id: String,
    pub user: Option<User>,
    pub session: Option<SessionPayload>,
    pub session_bytes: Option<Vec<u8>>,
}

/// An identity as contracts see it.
pub struct AuthContextView {
    pub client_id: Seq<char>,
    pub user: Option<UserView>,
    pub session: Option<SessionPayloadView>,
    pub session_bytes: Option<Seq<u8>>,
}

/// An optional user as contracts see it.
pub open spec fn user_view(user: Option<User>) -> Option<UserView> {
    match user {
        Some(user) => Some(user@),
        None => None,
    }
}

/// An optional payload as contracts see it.
pub open spec fn payload_view(payload: Option<SessionPayload>) -> Option<SessionPayloadView> {
    match payload {
        Some(payload) => Some(payload@),
        None => None,
    }
}

/// Optional bytes as contracts see them.
pub open spec fn bytes_view(bytes: Option<Vec<u8>>) -> Option<Seq<u8>> {
    match bytes {
        Some(bytes) => Some(bytes@),
        None => None,
    }
}

impl View for AuthContext {
    type V = AuthContextView;

    open spec fn view(&self) -> AuthContextView {
        AuthContextView {
            client_id: self.client_id@,
            user: user_view(self.user),
            session: payload_view(self.session),
            session_bytes: bytes_view(self.session_bytes),
        }
    }
}

/// The identity of a request that presented none: the enrollment tier.
pub open spec fn anonymous() -> AuthContextView {
    AuthContextView { client_id: Seq::empty(), user: None, session: None, session_bytes: None }
}

/// The identity of a verified client without a session.
pub open spec fn client_identity(client_id: Seq<char>) -> AuthContextView {
    AuthContextView { client_id, user: None, session: None, session_bytes: None }
}

/// The identity of a verified client and session.
pub open spec fn session_identity(
    client_id: Seq<char>,
    user: UserView,
    payload: SessionPayloadView,
    payload_bytes: Seq<u8>,
) -> AuthContextView {
    AuthContextView {
        client_id,
        user: Some(user),
        session: Some(payload),
        session_bytes: Some(payload_bytes),
    }
}

// ---------------------------------------------------------------------------
// Layer 1: client signature
// ---------------------------------------------------------------------------

/// The refusal of a request that lacks a client header.
pub open spec fn missing_client_auth() -> RejectionView {
    refusal(Status::Unauthorized, "missing client auth"@)
}

/// The refusal of a request whose client headers cannot be read.
pub open spec fn bad_client_auth() -> RejectionView {
    refusal(Status::Unauthorized, "bad client auth"@)
}

/// What the request presents, given the digest of its body: the four client
/// headers, with the canonical bytes rebuilt from the request itself.
pub open spec fn presented(head: RequestHeadView, body_sha256: Seq<u8>) -> Result<
    PresentedView,
    RejectionView,
> {
    match (
        header_text(head.headers, H_CLIENT@),
        header_text(head.headers, H_TIMESTAMP@),
        header_text(head.headers, H_NONCE@),
        header_text(head.headers, H_SIGNATURE@),
    ) {
        (Some(client_id), Some(timestamp), Some(nonce), Some(signature)) => {
            match (decimal_value(timestamp), hex_bytes(encode_utf8(signature))) {
                (Some(timestamp), Some(signature)) => Ok(
                    PresentedView {
                        client_id,
                        canonical_request: canonical_bytes(
                            head.method,
                            head.path,
                            body_sha256,
                            client_id,
                            timestamp,
                            nonce,
                        ),
                        signature,
                        timestamp,
                        nonce,
                    },
                ),
                _ => Err(bad_client_auth()),
            }
        },
        _ => Err(missing_client_auth()),
    }
}

/// Reads the client headers and builds what is presented, given the digest of
/// the body.
pub fn present(head: &RequestHead, body_sha256: &[u8]) -> (result: Result<
    PresentedClientAuth,
    Rejection,
>)
    ensures
        match result {
            Ok(found) => presented(head@, body_sha256@) == Ok::<PresentedView, RejectionView>(found@),
            Err(rejection) => presented(head@, body_sha256@) == Err::<PresentedView, RejectionView>(
                rejection@,
            ),
        },
{
    let missing = Rejection { status: Status::Unauthorized, message: "missing client auth" };
    let bad = Rejection { status: Status::Unauthorized, message: "bad client auth" };
    let client_id = match header(&head.headers, H_CLIENT) {
        Some(text) => text,
        None => {
            return Err(missing);
        },
    };
    let timestamp_text = match header(&head.headers, H_TIMESTAMP) {
        Some(text) => text,
        None => {
            return Err(missing);
        },
    };
    let nonce = match header(&head.headers, H_NONCE) {
        Some(text) => text,
        None => {
            return Err(missing);
        },
    };
    let signature_hex = match header(&head.headers, H_SIGNATURE) {
        Some(text) => text,
        None => {
            return Err(missing);
        },
    };
    let timestamp: i64 = match parse_i64(timestamp_text.as_str()) {
        Some(value) => value,
        None => {
            return Err(bad);
        },
    };
    let signature = match hex_decode(signature_hex.as_str()) {
        Some(bytes) => bytes,
        None => {
            return Err(bad);
        },
    };
    let canonical = canonical_request(
        head.method.as_str(),
        head.path.as_str(),
        body_sha256,
        client_id.as_str(),
        timestamp,
        nonce.as_str(),
    );
    Ok(PresentedClientAuth { client_id, canonical_request: canonical, signature, timestamp, nonce })
}

/// Layer 1 up to the scheme's verification: what the request presents, with
/// the digest of its body in the canonical bytes.
pub fn verify_client(head: &RequestHead, body: &[u8]) -> (result: Result<
    PresentedClientAuth,
    Rejection,
>)
    ensures
        match result {
            Ok(found) => presented(head@, sha256(body@)) == Ok::<PresentedView, RejectionView>(
                found@,
            ),
            Err(rejection) => presented(head@, sha256(body@)) == Err::<PresentedView, RejectionView>(
                rejection@,
            ),
        },
{
    let digest = digest_sha256(body);
    present(head, digest.as_slice())
}

// ---------------------------------------------------------------------------
// Layer 2: session
// ---------------------------------------------------------------------------

/// The token in the authorization header.
pub open spec fn bearer(headers: Seq<HeaderView>) -> Option<Seq<char>> {
    match header_text(headers, H_AUTHORIZATION@) {
        Some(text) => after_prefix(text, BEARER@),
        None => None,
    }
}

/// Reads the token from the authorization header.
pub fn bearer_token(headers: &Vec<HeaderEntry>) -> (token: Option<String>)
    ensures
        text_view(token) == bearer(header_views(headers@)),
{
    match header(headers, H_AUTHORIZATION) {
        Some(text) => strip_prefix(text.as_str(), BEARER),
        None => None,
    }
}

/// The payload bytes and the stamp of the request's token, or the refusal.
pub open spec fn session_parts(headers: Seq<HeaderView>) -> Result<
    (Seq<u8>, Seq<u8>),
    RejectionView,
> {
    match bearer(headers) {
        None => Err(refusal(Status::Unauthorized, "missing session"@)),
        Some(token) => match token_parts(token) {
            None => Err(refusal(Status::Unauthorized, "bad session"@)),
            Some(parts) => Ok(parts),
        },
    }
}

/// Parses the request's token.
pub fn session_token(headers: &Vec<HeaderEntry>) -> (result: Result<(Vec<u8>, Stamp), Rejection>)
    ensures
        match result {
            Ok((payload, stamp)) => session_parts(header_views(headers@)) == Ok::<
                (Seq<u8>, Seq<u8>),
                RejectionView,
            >((payload@, stamp.0@)),
            Err(rejection) => session_parts(header_views(headers@)) == Err::<
                (Seq<u8>, Seq<u8>),
                RejectionView,
            >(rejection@),
        },
{
    match bearer_token(headers) {
        None => Err(Rejection { status: Status::Unauthorized, message: "missing session" }),
        Some(token) => match parse(token.as_str()) {
            Ok(parts) => Ok(parts),
            Err(_) => Err(Rejection { status: Status::Unauthorized, message: "bad session" }),
        },
    }
}

/// Whether a token is past its expiry. A clock that cannot be read proves no
/// freshness, so it counts as past.
pub open spec fn expired(clock: Option<i64>, exp_unix: i64) -> bool {
    match clock {
        Some(now) => now > exp_unix,
        None => true,
    }
}

/// The refusal that a denylist status means, if any.
pub open spec fn revocation_refusal(status: RevocationStatus) -> Option<RejectionView> {
    match status {
        RevocationStatus::NotRevoked => None,
        RevocationStatus::Revoked => Some(refusal(Status::Unauthorized, "session invalid"@)),
        RevocationStatus::Unknown => Some(
            refusal(Status::ServiceUnavailable, "revocation status unavailable"@),
        ),
    }
}

/// Reads the denylist status of a session, refusing unless it is definitely
/// not revoked.
pub fn refuse_revoked(status: RevocationStatus) -> (rejection: Option<Rejection>)
    ensures
        (match rejection {
            Some(rejection) => Some(rejection@),
            None => None,
        }) == revocation_refusal(status),
{
    match status {
        RevocationStatus::NotRevoked => None,
        RevocationStatus::Revoked => Some(
            Rejection { status: Status::Unauthorized, message: "session invalid" },
        ),
        RevocationStatus::Unknown => Some(
            Rejection {
                status: Status::ServiceUnavailable,
                message: "revocation status unavailable",
            },
        ),
    }
}

// ---------------------------------------------------------------------------
// Layer 3: role
// ---------------------------------------------------------------------------

/// What is recorded of a denied role.
pub open spec fn denied(user_id: Seq<char>, role: Role) -> DecisionView {
    DecisionView {
        allowed: false,
        detail: "rbac deny user="@ + user_id + " role="@ + role.spec_name(),
    }
}

/// What is recorded of a granted request: public identifiers only.
pub open spec fn granted(
    client_id: Seq<char>,
    user_id: Seq<char>,
    method: Seq<char>,
    path: Seq<char>,
) -> DecisionView {
    DecisionView {
        allowed: true,
        detail: "grant client="@ + client_id + " user="@ + user_id + " "@ + method + " "@ + path,
    }
}

/// Checks that the user holds the exact role; otherwise what to record.
pub fn authorize(user: &User, required: Role) -> (denial: Option<Decision>)
    ensures
        denial is None <==> user@.roles.contains(required),
        denial matches Some(decision) ==> decision@ == denied(user@.id, required),
{
    if user.has_role(required) {
        None
    } else {
        let mut detail = "rbac deny user=".to_owned();
        detail.append(user.id.as_str());
        detail.append(" role=");
        detail.append(required.name());
        Some(Decision { allowed: false, detail })
    }
}

/// What to record of a granted request.
pub fn record_grant(client_id: &str, user_id: &str, method: &str, path: &str) -> (decision:
    Decision)
    ensures
        decision@ == granted(client_id@, user_id@, method@, path@),
{
    let mut detail = "grant client=".to_owned();
    detail.append(client_id);
    detail.append(" user=");
    detail.append(user_id);
    detail.append(" ");
    detail.append(method);
    detail.append(" ");
    detail.append(path);
    Decision { allowed: true, detail }
}

} // verus!
