//! What the middleware reads of a request, what it asks the outside about it,
//! and how it ends, in terms of what the request carries.

use vstd::prelude::*;
use vstd::utf8::*;

use crate::auth::{bearer, presented, AuthContextView, PresentedView, RequestHeadView, RequiredAuth};
use crate::auth_laws::{
    advance, answer, asks, is_final, opens, settled, turn_at, verdict, Answers,
};
use crate::canonical::canonical_bytes;
use crate::decimal::decimal_value;
use crate::enforcement::{next, opening, ActionView, SessionView, StageView, Turn};
use crate::format_laws::{spells, texts_are_read_as_the_bytes_they_spell};
use crate::headers::{ascii_text, first_value, header_text, HeaderView};
use crate::outside::sha256;
use crate::reply::{DecisionView, RejectionView, Status};
use crate::session::{hex_bytes, token_parts};
use crate::text::after_prefix;
use crate::users::Role;

verus! {

// ---------------------------------------------------------------------------
// Headers
// ---------------------------------------------------------------------------

/// Whether the header at this position is the first of its name.
pub open spec fn is_first(headers: Seq<HeaderView>, name: Seq<char>, at: int) -> bool {
    &&& 0 <= at < headers.len()
    &&& headers[at].name == name
    &&& forall|i: int| 0 <= i < at ==> (#[trigger] headers[i]).name != name
}

/// Whether a value is this text, byte for character: visible ASCII, spaces and
/// tabs.
pub open spec fn is_text(value: Seq<u8>, text: Seq<char>) -> bool {
    value.len() == text.len() && forall|i: int|
        0 <= i < value.len() ==> (#[trigger] value[i]) as int == text[i] as int && (value[i] == 9
            || 32 <= value[i] <= 126)
}

/// Whether the headers carry this text under this name.
pub open spec fn carries(headers: Seq<HeaderView>, name: Seq<char>, text: Seq<char>) -> bool {
    exists|at: int| #[trigger] is_first(headers, name, at) && is_text(headers[at].value, text)
}

/// A header is read as the text that it carries, all of it, the first one of its
/// name; and nothing is read where it carries none.
pub proof fn headers_are_read_as_they_came(
    headers: Seq<HeaderView>,
    name: Seq<char>,
    text: Seq<char>,
)
    ensures
        header_text(headers, name) == Some(text) <==> carries(headers, name, text),
{
    first_is_found(headers, name);
    if carries(headers, name, text) {
        let at = choose|at: int| #[trigger]
            is_first(headers, name, at) && is_text(headers[at].value, text);
        first_is_unique(headers, name, at);
        let value = headers[at].value;
        assert(first_value(headers, name) == Some(value));
        assert(ascii_text(value) =~= text);
    }
    if header_text(headers, name) == Some(text) {
        let at = choose|at: int| #[trigger]
            is_first(headers, name, at) && first_value(headers, name) == Some(headers[at].value);
        assert(is_text(headers[at].value, text));
    }
}

proof fn first_is_found(headers: Seq<HeaderView>, name: Seq<char>)
    ensures
        first_value(headers, name) is Some ==> exists|at: int| #[trigger]
            is_first(headers, name, at) && first_value(headers, name) == Some(headers[at].value),
        first_value(headers, name) is None ==> forall|i: int|
            0 <= i < headers.len() ==> (#[trigger] headers[i]).name != name,
    decreases headers.len(),
{
    if headers.len() > 0 {
        if headers[0].name == name {
            assert(is_first(headers, name, 0));
        } else {
            let rest = headers.drop_first();
            first_is_found(rest, name);
            if first_value(headers, name) is Some {
                let at = choose|at: int| #[trigger]
                    is_first(rest, name, at) && first_value(rest, name) == Some(rest[at].value);
                assert forall|i: int| 0 <= i < at + 1 implies (#[trigger] headers[i]).name
                    != name by {
                    if i > 0 {
                        assert(rest[i - 1] == headers[i]);
                    }
                }
                assert(headers[at + 1] == rest[at]);
                assert(is_first(headers, name, at + 1));
            } else {
                assert forall|i: int| 0 <= i < headers.len() implies (#[trigger] headers[i]).name
                    != name by {
                    if i > 0 {
                        assert(rest[i - 1] == headers[i]);
                    }
                }
            }
        }
    }
}

proof fn first_is_unique(headers: Seq<HeaderView>, name: Seq<char>, at: int)
    requires
        is_first(headers, name, at),
    ensures
        first_value(headers, name) == Some(headers[at].value),
{
    first_is_found(headers, name);
    let found = choose|found: int| #[trigger]
        is_first(headers, name, found) && first_value(headers, name) == Some(headers[found].value);
    if found < at {
        assert(headers[found].name != name);
    }
    if at < found {
        assert(headers[at].name != name);
    }
}

/// The session token is what follows `Bearer ` in the authorization header, all
/// of it; without that there is none.
pub proof fn tokens_follow_the_bearer_prefix(headers: Seq<HeaderView>, token: Seq<char>)
    ensures
        bearer(headers) == Some(token) <==> carries(
            headers,
            "authorization"@,
            "Bearer "@ + token,
        ),
{
    let text = "Bearer "@ + token;
    headers_are_read_as_they_came(headers, "authorization"@, text);
    assert(text.take("Bearer "@.len() as int) =~= "Bearer "@);
    assert(text.skip("Bearer "@.len() as int) =~= token);
    assert(after_prefix(text, "Bearer "@) == Some(token));
    if bearer(headers) == Some(token) {
        let found = header_text(headers, "authorization"@)->0;
        assert(found =~= found.take("Bearer "@.len() as int) + found.skip("Bearer "@.len() as int));
    }
}

// ---------------------------------------------------------------------------
// What the client presents
// ---------------------------------------------------------------------------

/// Whether the headers carry a client's credentials: its id, a timestamp, a
/// nonce, and a signature in hexadecimal, of whatever length.
pub open spec fn credentials(
    headers: Seq<HeaderView>,
    client_id: Seq<char>,
    timestamp: Seq<char>,
    nonce: Seq<char>,
    signature: Seq<char>,
) -> bool {
    &&& carries(headers, "x-wyrtloom-client"@, client_id)
    &&& carries(headers, "x-wyrtloom-timestamp"@, timestamp)
    &&& carries(headers, "x-wyrtloom-nonce"@, nonce)
    &&& carries(headers, "x-wyrtloom-signature"@, signature)
}

proof fn credentials_are_read(
    headers: Seq<HeaderView>,
    client_id: Seq<char>,
    timestamp: Seq<char>,
    nonce: Seq<char>,
    signature: Seq<char>,
)
    ensures
        credentials(headers, client_id, timestamp, nonce, signature) <==> {
            &&& header_text(headers, "x-wyrtloom-client"@) == Some(client_id)
            &&& header_text(headers, "x-wyrtloom-timestamp"@) == Some(timestamp)
            &&& header_text(headers, "x-wyrtloom-nonce"@) == Some(nonce)
            &&& header_text(headers, "x-wyrtloom-signature"@) == Some(signature)
        },
{
    headers_are_read_as_they_came(headers, "x-wyrtloom-client"@, client_id);
    headers_are_read_as_they_came(headers, "x-wyrtloom-timestamp"@, timestamp);
    headers_are_read_as_they_came(headers, "x-wyrtloom-nonce"@, nonce);
    headers_are_read_as_they_came(headers, "x-wyrtloom-signature"@, signature);
}

/// A request presents what its headers carry: the client, the nonce and the
/// timestamp as they came, every byte that the signature header spells, and the
/// canonical bytes of this very request, with the digest of its body.
pub proof fn requests_present_what_they_carry(
    head: RequestHeadView,
    body_sha256: Seq<u8>,
    client_id: Seq<char>,
    written: Seq<char>,
    timestamp: i64,
    nonce: Seq<char>,
    spelled: Seq<char>,
    signature: Seq<u8>,
)
    requires
        credentials(head.headers, client_id, written, nonce, spelled),
        decimal_value(written) == Some(timestamp),
        spells(spelled, signature),
    ensures
        presented(head, body_sha256) == Ok::<PresentedView, RejectionView>(
            PresentedView {
                client_id,
                canonical_request: canonical_bytes(
                    head.method,
                    head.path,
                    body_sha256,
                    client_id,
                    timestamp,
                    nonce,
                ),
                signature,
                timestamp,
                nonce,
            },
        ),
{
    credentials_are_read(head.headers, client_id, written, nonce, spelled);
    texts_are_read_as_the_bytes_they_spell(spelled, signature);
}

/// Whatever a request presents, its headers carry: nothing else is presented,
/// and nothing is presented in part.
pub proof fn nothing_else_is_presented(
    head: RequestHeadView,
    body_sha256: Seq<u8>,
    found: PresentedView,
)
    requires
        presented(head, body_sha256) == Ok::<PresentedView, RejectionView>(found),
    ensures
        exists|timestamp: Seq<char>, spelled: Seq<char>| #[trigger]
            credentials(head.headers, found.client_id, timestamp, found.nonce, spelled)
                && decimal_value(timestamp) == Some(found.timestamp) && spells(
                spelled,
                found.signature,
            ),
        found.canonical_request == canonical_bytes(
            head.method,
            head.path,
            body_sha256,
            found.client_id,
            found.timestamp,
            found.nonce,
        ),
{
    let timestamp = header_text(head.headers, "x-wyrtloom-timestamp"@)->0;
    let spelled = header_text(head.headers, "x-wyrtloom-signature"@)->0;
    credentials_are_read(head.headers, found.client_id, timestamp, found.nonce, spelled);
    texts_are_read_as_the_bytes_they_spell(spelled, found.signature);
}

/// A request that lacks one of the four headers is told that client
/// authentication is missing; one whose timestamp is no number or whose
/// signature is no hexadecimal, that it is bad.
pub proof fn requests_without_credentials_are_told(
    head: RequestHeadView,
    body_sha256: Seq<u8>,
    client_id: Seq<char>,
    timestamp: Seq<char>,
    nonce: Seq<char>,
    signature: Seq<char>,
)
    ensures
        (forall|c: Seq<char>, t: Seq<char>, n: Seq<char>, s: Seq<char>| !#[trigger]
            credentials(head.headers, c, t, n, s)) ==> presented(head, body_sha256) == Err::<
            PresentedView,
            RejectionView,
        >(RejectionView { status: Status::Unauthorized, message: "missing client auth"@ }),
        credentials(head.headers, client_id, timestamp, nonce, signature) && (decimal_value(
            timestamp,
        ) is None || (forall|bytes: Seq<u8>| !#[trigger] spells(signature, bytes))) ==> presented(
            head,
            body_sha256,
        ) == Err::<PresentedView, RejectionView>(
            RejectionView { status: Status::Unauthorized, message: "bad client auth"@ },
        ),
{
    credentials_are_read(head.headers, client_id, timestamp, nonce, signature);
    if forall|c: Seq<char>, t: Seq<char>, n: Seq<char>, s: Seq<char>| !#[trigger]
        credentials(head.headers, c, t, n, s) {
        let c = header_text(head.headers, "x-wyrtloom-client"@)->0;
        let t = header_text(head.headers, "x-wyrtloom-timestamp"@)->0;
        let n = header_text(head.headers, "x-wyrtloom-nonce"@)->0;
        let s = header_text(head.headers, "x-wyrtloom-signature"@)->0;
        credentials_are_read(head.headers, c, t, n, s);
        assert(!credentials(head.headers, c, t, n, s));
    }
    let read = hex_bytes(encode_utf8(signature));
    if read is Some {
        texts_are_read_as_the_bytes_they_spell(signature, read->0);
    }
}

// ---------------------------------------------------------------------------
// How a request ends
// ---------------------------------------------------------------------------

/// Whether the outside could read the body, and it is at most 64 KiB.
pub open spec fn body_is(answers: Answers, body: Seq<u8>) -> bool {
    answers.body == Some(body) && body.len() <= 65536
}

/// Whether a verdict is this refusal.
pub open spec fn refused(
    verdict: Result<AuthContextView, RejectionView>,
    status: Status,
    message: Seq<char>,
) -> bool {
    verdict == Err::<AuthContextView, RejectionView>(RejectionView { status, message })
}

/// Enrollment asks for a rate-limit token and nothing else; whoever has one is
/// let through without an identity.
pub proof fn enrollment_needs_a_token_alone(head: RequestHeadView, answers: Answers)
    ensures
        !answers.token_spent ==> refused(
            verdict(RequiredAuth::PublicBootstrap, head, answers),
            Status::TooManyRequests,
            "rate limited"@,
        ),
        answers.token_spent ==> verdict(RequiredAuth::PublicBootstrap, head, answers) == Ok::<
            AuthContextView,
            RejectionView,
        >(
            AuthContextView {
                client_id: seq![],
                user: None,
                session: None,
                session_bytes: None,
            },
        ),
{
}

/// Login asks for a rate-limit token, a body within the limit and a verified
/// client, in that order, and hands on exactly that client.
pub proof fn login_needs_a_token_and_a_client(
    head: RequestHeadView,
    answers: Answers,
    body: Seq<u8>,
)
    ensures
        ({
            let end = verdict(RequiredAuth::ClientOnly, head, answers);
            &&& !answers.token_spent ==> refused(
                end,
                Status::TooManyRequests,
                "rate limited"@,
            )
            &&& answers.token_spent && (answers.body matches Some(bytes) ==> bytes.len() > 65536)
                ==> refused(end, Status::PayloadTooLarge, "request body too large"@)
            &&& answers.token_spent && body_is(answers, body) ==> match presented(
                head,
                sha256(body),
            ) {
                Err(rejection) => end == Err::<AuthContextView, RejectionView>(rejection),
                Ok(_) => match answers.client {
                    None => refused(end, Status::Unauthorized, "client auth failed"@),
                    Some(client_id) => end == Ok::<AuthContextView, RejectionView>(
                        AuthContextView {
                            client_id,
                            user: None,
                            session: None,
                            session_bytes: None,
                        },
                    ),
                },
            }
        }),
{
}

/// A role's route looks at the layers in this order: the body, the client, the
/// token, its payload, its expiry, its stamp, the denylist, the user, the user's
/// role. The first that fails is the one that is told, and a request that passes
/// them all is let through as the verified client and the user as it stands now,
/// with the payload of its token and the bytes that carried it.
pub proof fn role_routes_look_at_every_layer(
    role: Role,
    head: RequestHeadView,
    answers: Answers,
    body: Seq<u8>,
)
    ensures
        ({
            let end = verdict(RequiredAuth::Role(role), head, answers);
            &&& (answers.body matches Some(bytes) ==> bytes.len() > 65536) ==> refused(
                end,
                Status::PayloadTooLarge,
                "request body too large"@,
            )
            &&& body_is(answers, body) ==> match (presented(head, sha256(body)), answers.client) {
                (Err(rejection), _) => end == Err::<AuthContextView, RejectionView>(rejection),
                (Ok(_), None) => refused(end, Status::Unauthorized, "client auth failed"@),
                (Ok(_), Some(client_id)) => ends_by_session(role, head, answers, client_id, end),
            }
        }),
{
}

/// How a role's route ends once the client is verified.
pub open spec fn ends_by_session(
    role: Role,
    head: RequestHeadView,
    answers: Answers,
    client_id: Seq<char>,
    end: Result<AuthContextView, RejectionView>,
) -> bool {
    match bearer(head.headers) {
        None => refused(end, Status::Unauthorized, "missing session"@),
        Some(token) => match (token_parts(token), answers.payload) {
            (None, _) => refused(end, Status::Unauthorized, "bad session"@),
            (Some(_), None) => refused(end, Status::Unauthorized, "bad session"@),
            (Some((bytes, _)), Some(payload)) => {
                if !(answers.clock matches Some(now) && now <= payload.exp_unix) {
                    refused(end, Status::Unauthorized, "session expired"@)
                } else if !answers.stamp_valid || answers.revocation is Revoked {
                    refused(end, Status::Unauthorized, "session invalid"@)
                } else if answers.revocation is Unknown {
                    refused(end, Status::ServiceUnavailable, "revocation status unavailable"@)
                } else {
                    match answers.user {
                        None => refused(end, Status::Unauthorized, "unknown user"@),
                        Some(user) => if !user.active {
                            refused(end, Status::Unauthorized, "user disabled"@)
                        } else if !user.roles.contains(role) {
                            refused(end, Status::Forbidden, "forbidden"@)
                        } else {
                            end == Ok::<AuthContextView, RejectionView>(
                                AuthContextView {
                                    client_id,
                                    user: Some(user),
                                    session: Some(payload),
                                    session_bytes: Some(bytes),
                                },
                            )
                        },
                    }
                }
            },
        },
    }
}

// ---------------------------------------------------------------------------
// What is asked on the way
// ---------------------------------------------------------------------------

/// Enrollment and login spend a token of the peer's own bucket before anything
/// else: the key is the peer's address, so no two known peers share one. Only
/// requests without a known peer share a bucket.
pub proof fn each_peer_has_its_own_bucket(
    required: RequiredAuth,
    head: RequestHeadView,
    answers: Answers,
    peer: Seq<char>,
    key: Seq<char>,
)
    requires
        !(required is Role),
    ensures
        head.peer == Some(peer) ==> opening(required, head).action == (ActionView::SpendToken {
            key: peer,
        }),
        head.peer is None ==> opening(required, head).action == (ActionView::SpendToken {
            key: "unknown"@,
        }),
        head.peer == Some(peer) && asks(
            required,
            head,
            answers,
            ActionView::SpendToken { key },
        ) ==> key == peer,
{
    if asks(required, head, answers, ActionView::SpendToken { key }) {
        asked_faithfully(required, head, answers, ActionView::SpendToken { key });
    }
}

/// What a request presents, given a body that could be read.
spec fn presents(head: RequestHeadView, answers: Answers, found: PresentedView) -> bool {
    answers.body matches Some(body) && body.len() <= 65536 && presented(head, sha256(body)) == Ok::<
        PresentedView,
        RejectionView,
    >(found)
}

/// Whether a token of the request is made of these bytes and this stamp.
spec fn token_is(head: RequestHeadView, bytes: Seq<u8>, stamp: Seq<u8>) -> bool {
    bearer(head.headers) matches Some(token) && token_parts(token) == Some((bytes, stamp))
}

/// Whether a session check carries what the request and the outside gave.
spec fn session_is(
    required: RequiredAuth,
    head: RequestHeadView,
    answers: Answers,
    session: SessionView,
) -> bool {
    &&& required == RequiredAuth::Role(session.role)
    &&& answers.client == Some(session.client_id)
    &&& answers.payload == Some(session.payload)
    &&& exists|stamp: Seq<u8>| #[trigger] token_is(head, session.bytes, stamp)
}

/// Whether a turn asks for what the request and the outside gave.
spec fn faithful(
    required: RequiredAuth,
    head: RequestHeadView,
    answers: Answers,
    turn: Turn,
) -> bool {
    &&& turn.state.required == required
    &&& turn.state.head == head
    &&& match turn.state.stage {
        StageView::SpendingToken => !(required is Role) && turn.action == (
        ActionView::SpendToken {
            key: match head.peer {
                Some(peer) => peer,
                None => "unknown"@,
            },
        }),
        StageView::ReadingBody => !(required is PublicBootstrap) && turn.action == (
        ActionView::ReadBody { limit: 65536 }),
        StageView::VerifyingClient { canonical } => turn.action matches ActionView::VerifyClient {
            presented: found,
        } && presents(head, answers, found) && canonical == found.canonical_request,
        StageView::StampingRequest { client_id } => answers.client == Some(client_id) && (
        turn.action matches ActionView::StampRequest { canonical } && exists|
            found: PresentedView,
        | #[trigger]
            presents(head, answers, found) && canonical == found.canonical_request),
        StageView::DecodingPayload { role, client_id, bytes, stamp } => required
            == RequiredAuth::Role(role) && answers.client == Some(client_id) && token_is(
            head,
            bytes,
            stamp,
        ) && turn.action == (ActionView::DecodePayload { payload: bytes }),
        StageView::ReadingClock { session, stamp } => session_is(required, head, answers, session)
            && token_is(head, session.bytes, stamp) && turn.action == ActionView::ReadClock,
        StageView::CheckingStamp { session } => session_is(required, head, answers, session) && (
        turn.action matches ActionView::CheckStamp { stamp, payload } && token_is(
            head,
            session.bytes,
            stamp,
        ) && payload == session.bytes),
        StageView::LookingUpRevocation { session } => session_is(required, head, answers, session)
            && turn.action == (ActionView::LookUpRevocation { nonce: session.payload.nonce }),
        StageView::FetchingUser { session } => session_is(required, head, answers, session)
            && turn.action == (ActionView::FetchUser { user_id: session.payload.user_id }),
        StageView::RecordingGrant { context } => (answers.user matches Some(user) && (
        required matches RequiredAuth::Role(role) && user.roles.contains(role)) && (
        answers.client matches Some(client_id) && turn.action == (ActionView::Record {
            decision: DecisionView {
                allowed: true,
                detail: "grant client="@ + client_id + " user="@ + user.id + " "@ + head.method
                    + " "@ + head.path,
            },
        }))),
        StageView::RecordingDenial => (answers.user matches Some(user) && (
        required matches RequiredAuth::Role(role) && !user.roles.contains(role) && turn.action == (
        ActionView::Record {
            decision: DecisionView {
                allowed: false,
                detail: "rbac deny user="@ + user.id + " role="@ + role.spec_name(),
            },
        }))),
        StageView::Finished => is_final(turn.action),
    }
}

#[verifier::spinoff_prover]
proof fn next_is_faithful(
    required: RequiredAuth,
    head: RequestHeadView,
    answers: Answers,
    turn: Turn,
)
    requires
        faithful(required, head, answers, turn),
        !is_final(turn.action),
    ensures
        faithful(required, head, answers, next(turn.state, answer(turn.action, answers))),
{
    let after = next(turn.state, answer(turn.action, answers));
    match turn.state.stage {
        StageView::SpendingToken => {
            assert(faithful(required, head, answers, after));
        },
        StageView::ReadingBody => {
            assert(faithful(required, head, answers, after));
        },
        StageView::VerifyingClient { .. } => {
            assert(faithful(required, head, answers, after));
        },
        StageView::StampingRequest { .. } => {
            assert(faithful(required, head, answers, after));
        },
        StageView::DecodingPayload { role, client_id, bytes, stamp } => {
            if answers.payload is Some {
                let session = SessionView { role, client_id, bytes, payload: answers.payload->0 };
                assert(token_is(head, session.bytes, stamp));
                assert(session_is(required, head, answers, session));
                assert(after.state.stage == (StageView::ReadingClock { session, stamp }));
            }
            assert(faithful(required, head, answers, after));
        },
        StageView::ReadingClock { .. } => {
            assert(faithful(required, head, answers, after));
        },
        StageView::CheckingStamp { .. } => {
            assert(faithful(required, head, answers, after));
        },
        StageView::LookingUpRevocation { .. } => {
            assert(faithful(required, head, answers, after));
        },
        StageView::FetchingUser { .. } => {
            assert(faithful(required, head, answers, after));
        },
        _ => {
            assert(faithful(required, head, answers, after));
        },
    }
}

proof fn always_faithful(
    required: RequiredAuth,
    head: RequestHeadView,
    answers: Answers,
    steps: nat,
)
    ensures
        faithful(required, head, answers, turn_at(required, head, answers, steps)),
    decreases steps,
{
    if steps == 0 {
        opens(required, head, answers);
    } else {
        let before = (steps - 1) as nat;
        always_faithful(required, head, answers, before);
        let turn = turn_at(required, head, answers, before);
        if is_final(turn.action) {
            settled(required, head, answers, before, steps);
        } else {
            advance(required, head, answers, before, turn);
            next_is_faithful(required, head, answers, turn);
        }
    }
}

proof fn asked_faithfully(
    required: RequiredAuth,
    head: RequestHeadView,
    answers: Answers,
    action: ActionView,
)
    requires
        asks(required, head, answers, action),
    ensures
        exists|turn: Turn| #[trigger]
            faithful(required, head, answers, turn) && turn.action == action,
{
    let at = choose|at: nat|
        at >= 0 && (#[trigger] turn_at(required, head, answers, at)).action == action;
    always_faithful(required, head, answers, at);
}

/// Whatever is asked of the outside is about what the request carries, whole and
/// unchanged: the body up to 64 KiB; the client-auth scheme, about all that is
/// presented; the canonical bytes that were presented, to be stamped; the
/// payload bytes of the request's own token, to be decoded; that token's stamp
/// over those bytes; the nonce and the user that the decoded payload names; and
/// a record that names the client, the user, the method and the path, or the
/// user and the role that the route asks for.
pub proof fn questions_are_about_the_request(
    required: RequiredAuth,
    head: RequestHeadView,
    answers: Answers,
    action: ActionView,
)
    requires
        asks(required, head, answers, action),
    ensures
        match action {
            ActionView::SpendToken { key } => match head.peer {
                Some(peer) => key == peer,
                None => key == "unknown"@,
            },
            ActionView::ReadBody { limit } => limit == 65536,
            ActionView::VerifyClient { presented: found } => answers.body matches Some(body)
                && presented(head, sha256(body)) == Ok::<PresentedView, RejectionView>(found),
            ActionView::StampRequest { canonical } => answers.body matches Some(body) && (
            presented(head, sha256(body)) matches Ok(found) && canonical
                == found.canonical_request),
            ActionView::DecodePayload { payload } => bearer(head.headers) matches Some(token) && (
            token_parts(token) matches Some((bytes, _)) && payload == bytes),
            ActionView::CheckStamp { stamp, payload } => bearer(head.headers) matches Some(token)
                && token_parts(token) == Some((payload, stamp)),
            ActionView::LookUpRevocation { nonce } => answers.payload matches Some(payload) && nonce
                == payload.nonce,
            ActionView::FetchUser { user_id } => answers.payload matches Some(payload) && user_id
                == payload.user_id,
            ActionView::Record { decision } => records_the_decision(
                required,
                head,
                answers,
                decision,
            ),
            _ => true,
        },
{
    asked_faithfully(required, head, answers, action);
}

/// Whether a record tells how the user's role was decided.
pub open spec fn records_the_decision(
    required: RequiredAuth,
    head: RequestHeadView,
    answers: Answers,
    decision: DecisionView,
) -> bool {
    required matches RequiredAuth::Role(role) && (answers.user matches Some(user) && (
    if user.roles.contains(role) {
        answers.client matches Some(client_id) && decision == (DecisionView {
            allowed: true,
            detail: "grant client="@ + client_id + " user="@ + user.id + " "@ + head.method + " "@
                + head.path,
        })
    } else {
        decision == (DecisionView {
            allowed: false,
            detail: "rbac deny user="@ + user.id + " role="@ + role.spec_name(),
        })
    }))
}

/// A signed request reaches the scheme whole: whatever the length of the
/// signature, the scheme is asked to verify every byte of it, over the canonical
/// bytes of the request with the digest of the whole body.
pub proof fn signed_requests_reach_the_scheme(
    required: RequiredAuth,
    head: RequestHeadView,
    answers: Answers,
    body: Seq<u8>,
    client_id: Seq<char>,
    written: Seq<char>,
    timestamp: i64,
    nonce: Seq<char>,
    spelled: Seq<char>,
    signature: Seq<u8>,
)
    requires
        !(required is PublicBootstrap),
        required is ClientOnly ==> answers.token_spent,
        body_is(answers, body),
        credentials(head.headers, client_id, written, nonce, spelled),
        decimal_value(written) == Some(timestamp),
        spells(spelled, signature),
    ensures
        asks(
            required,
            head,
            answers,
            ActionView::VerifyClient {
                presented: PresentedView {
                    client_id,
                    canonical_request: canonical_bytes(
                        head.method,
                        head.path,
                        sha256(body),
                        client_id,
                        timestamp,
                        nonce,
                    ),
                    signature,
                    timestamp,
                    nonce,
                },
            },
        ),
{
    requests_present_what_they_carry(
        head,
        sha256(body),
        client_id,
        written,
        timestamp,
        nonce,
        spelled,
        signature,
    );
    opens(required, head, answers);
    let first = turn_at(required, head, answers, 0);
    advance(required, head, answers, 0, first);
    let second = turn_at(required, head, answers, 1);
    if required is ClientOnly {
        advance(required, head, answers, 1, second);
        assert(turn_at(required, head, answers, 2).action is VerifyClient);
    } else {
        assert(second.action is VerifyClient);
    }
}

/// A session that is let through has been checked in full: its payload was
/// decoded from the token's bytes, its stamp was checked over them, its nonce was
/// looked up, its user was fetched, and the grant was recorded.
pub proof fn admitted_sessions_were_checked_in_full(
    role: Role,
    head: RequestHeadView,
    answers: Answers,
    bytes: Seq<u8>,
    stamp: Seq<u8>,
)
    requires
        verdict(RequiredAuth::Role(role), head, answers) is Ok,
        bearer(head.headers) matches Some(token) && token_parts(token) == Some((bytes, stamp)),
    ensures
        ({
            let required = RequiredAuth::Role(role);
            let payload = answers.payload->0;
            &&& asks(required, head, answers, ActionView::DecodePayload { payload: bytes })
            &&& asks(required, head, answers, ActionView::CheckStamp { stamp, payload: bytes })
            &&& asks(
                required,
                head,
                answers,
                ActionView::LookUpRevocation { nonce: payload.nonce },
            )
            &&& asks(
                required,
                head,
                answers,
                ActionView::FetchUser { user_id: payload.user_id },
            )
            &&& asks(
                required,
                head,
                answers,
                ActionView::Record {
                    decision: DecisionView {
                        allowed: true,
                        detail: "grant client="@ + answers.client->0 + " user="@
                            + answers.user->0.id + " "@ + head.method + " "@ + head.path,
                    },
                },
            )
        }),
{
    let required = RequiredAuth::Role(role);
    opens(required, head, answers);
    let t0 = turn_at(required, head, answers, 0);
    advance(required, head, answers, 0, t0);
    let t1 = turn_at(required, head, answers, 1);
    assert(t1.action is VerifyClient);
    advance(required, head, answers, 1, t1);
    let t2 = turn_at(required, head, answers, 2);
    assert(t2.action is StampRequest);
    advance(required, head, answers, 2, t2);
    let t3 = turn_at(required, head, answers, 3);
    assert(t3.action == (ActionView::DecodePayload { payload: bytes }));
    advance(required, head, answers, 3, t3);
    let t4 = turn_at(required, head, answers, 4);
    assert(t4.action is ReadClock);
    advance(required, head, answers, 4, t4);
    let t5 = turn_at(required, head, answers, 5);
    assert(t5.action == (ActionView::CheckStamp { stamp, payload: bytes }));
    advance(required, head, answers, 5, t5);
    let t6 = turn_at(required, head, answers, 6);
    assert(t6.action is LookUpRevocation);
    advance(required, head, answers, 6, t6);
    let t7 = turn_at(required, head, answers, 7);
    assert(t7.action is FetchUser);
    advance(required, head, answers, 7, t7);
    let t8 = turn_at(required, head, answers, 8);
    assert(t8.action is Record);
    always_faithful(required, head, answers, 8);
}

} // verus!
