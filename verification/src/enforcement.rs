//! The middleware's decisions, one step at a time.

use vstd::prelude::*;
use vstd::string::*;

use crate::auth::{
    anonymous, authorize, bytes_view, client_identity, denied, expired, granted, payload_view,
    presented, record_grant, refuse_revoked, revocation_refusal, session_identity, session_parts,
    session_token, text_view, user_view, verify_client, AuthContext, AuthContextView,
    PresentedClientAuth, PresentedView, RequestHead, RequestHeadView, RequiredAuth, UNKNOWN_PEER,
};
use crate::outside::sha256;
use crate::reply::{refusal, Decision, DecisionView, Rejection, RejectionView, Status};
use crate::session::{SessionPayload, SessionPayloadView, Stamp};
use crate::state::{RevocationStatus, MAX_BODY_BYTES};
use crate::text::copy_bytes;
use crate::users::{Role, User, UserView};

verus! {

/// What the machine asks for next. The last two end it.
#[derive(Debug)]
pub enum Action {
    /// Spend one rate-limit token of this key.
    SpendToken { key: String },
    /// Read the body, up to this many bytes.
    ReadBody { limit: usize },
    /// Have the client-auth scheme verify what is presented.
    VerifyClient { presented: PresentedClientAuth },
    /// Stamp the canonical request bytes into the audit chain.
    StampRequest { canonical: Vec<u8> },
    /// Decode the session payload.
    DecodePayload { payload: Vec<u8> },
    /// Read the clock.
    ReadClock,
    /// Check that the stamp covers the payload bytes.
    CheckStamp { stamp: Stamp, payload: Vec<u8> },
    /// Look the session's nonce up in the denylist.
    LookUpRevocation { nonce: String },
    /// Fetch the user from the directory.
    FetchUser { user_id: String },
    /// Append this decision to the audit chain.
    Record { decision: Decision },
    /// Let the request through with this identity.
    Admit { context: AuthContext },
    /// Answer with this refusal.
    Reject { rejection: Rejection },
}

/// An action as contracts see it.
pub enum ActionView {
    SpendToken { key: Seq<char> },
    ReadBody { limit: usize },
    VerifyClient { presented: PresentedView },
    StampRequest { canonical: Seq<u8> },
    DecodePayload { payload: Seq<u8> },
    ReadClock,
    CheckStamp { stamp: Seq<u8>, payload: Seq<u8> },
    LookUpRevocation { nonce: Seq<char> },
    FetchUser { user_id: Seq<char> },
    Record { decision: DecisionView },
    Admit { context: AuthContextView },
    Reject { rejection: RejectionView },
}

impl View for Action {
    type V = ActionView;

    open spec fn view(&self) -> ActionView {
        match *self {
            Action::SpendToken { key } => ActionView::SpendToken { key: key@ },
            Action::ReadBody { limit } => ActionView::ReadBody { limit },
            Action::VerifyClient { presented } => ActionView::VerifyClient { presented: presented@ },
            Action::StampRequest { canonical } => ActionView::StampRequest { canonical: canonical@ },
            Action::DecodePayload { payload } => ActionView::DecodePayload { payload: payload@ },
            Action::ReadClock => ActionView::ReadClock,
            Action::CheckStamp { stamp, payload } => ActionView::CheckStamp {
                stamp: stamp.0@,
                payload: payload@,
            },
            Action::LookUpRevocation { nonce } => ActionView::LookUpRevocation { nonce: nonce@ },
            Action::FetchUser { user_id } => ActionView::FetchUser { user_id: user_id@ },
            Action::Record { decision } => ActionView::Record { decision: decision@ },
            Action::Admit { context } => ActionView::Admit { context: context@ },
            Action::Reject { rejection } => ActionView::Reject { rejection: rejection@ },
        }
    }
}

/// The answer to an action.
#[derive(Debug)]
pub enum Event {
    /// Whether a rate-limit token was there to spend.
    TokenSpent { allowed: bool },
    /// The body, or `None` if it is over the limit.
    Body { body: Option<Vec<u8>> },
    /// The client that the scheme verified.
    Client { client_id: Option<String> },
    /// The stamping or recording is done.
    Done,
    /// The payload, or `None` if the bytes are none.
    Payload { payload: Option<SessionPayload> },
    /// The time, or `None` if the clock is broken.
    Clock { now: Option<i64> },
    /// Whether the stamp is valid.
    StampValid { valid: bool },
    /// What the denylist says.
    Revocation { status: RevocationStatus },
    /// The user, or `None` if the directory has none.
    Fetched { user: Option<User> },
}

/// An event as contracts see it.
pub enum EventView {
    TokenSpent { allowed: bool },
    Body { body: Option<Seq<u8>> },
    Client { client_id: Option<Seq<char>> },
    Done,
    Payload { payload: Option<SessionPayloadView> },
    Clock { now: Option<i64> },
    StampValid { valid: bool },
    Revocation { status: RevocationStatus },
    Fetched { user: Option<UserView> },
}

impl View for Event {
    type V = EventView;

    open spec fn view(&self) -> EventView {
        match *self {
            Event::TokenSpent { allowed } => EventView::TokenSpent { allowed },
            Event::Body { body } => EventView::Body { body: bytes_view(body) },
            Event::Client { client_id } => EventView::Client { client_id: text_view(client_id) },
            Event::Done => EventView::Done,
            Event::Payload { payload } => EventView::Payload { payload: payload_view(payload) },
            Event::Clock { now } => EventView::Clock { now },
            Event::StampValid { valid } => EventView::StampValid { valid },
            Event::Revocation { status } => EventView::Revocation { status },
            Event::Fetched { user } => EventView::Fetched { user: user_view(user) },
        }
    }
}

/// What a session check carries from step to step.
struct Session {
    role: Role,
    client_id: String,
    bytes: Vec<u8>,
    payload: SessionPayload,
}

/// A session check as contracts see it.
pub struct SessionView {
    pub role: Role,
    pub client_id: Seq<char>,
    pub bytes: Seq<u8>,
    pub payload: SessionPayloadView,
}

impl View for Session {
    type V = SessionView;

    closed spec fn view(&self) -> SessionView {
        SessionView {
            role: self.role,
            client_id: self.client_id@,
            bytes: self.bytes@,
            payload: self.payload@,
        }
    }
}

enum Stage {
    SpendingToken,
    ReadingBody,
    VerifyingClient { canonical: Vec<u8> },
    StampingRequest { client_id: String },
    DecodingPayload { role: Role, client_id: String, bytes: Vec<u8>, stamp: Stamp },
    ReadingClock { session: Session, stamp: Stamp },
    CheckingStamp { session: Session },
    LookingUpRevocation { session: Session },
    FetchingUser { session: Session },
    RecordingGrant { context: AuthContext },
    RecordingDenial,
    Finished,
}

/// Where the machine stands: what it last asked for, and what it keeps.
pub enum StageView {
    SpendingToken,
    ReadingBody,
    VerifyingClient { canonical: Seq<u8> },
    StampingRequest { client_id: Seq<char> },
    DecodingPayload { role: Role, client_id: Seq<char>, bytes: Seq<u8>, stamp: Seq<u8> },
    ReadingClock { session: SessionView, stamp: Seq<u8> },
    CheckingStamp { session: SessionView },
    LookingUpRevocation { session: SessionView },
    FetchingUser { session: SessionView },
    RecordingGrant { context: AuthContextView },
    RecordingDenial,
    Finished,
}

impl View for Stage {
    type V = StageView;

    closed spec fn view(&self) -> StageView {
        match *self {
            Stage::SpendingToken => StageView::SpendingToken,
            Stage::ReadingBody => StageView::ReadingBody,
            Stage::VerifyingClient { canonical } => StageView::VerifyingClient {
                canonical: canonical@,
            },
            Stage::StampingRequest { client_id } => StageView::StampingRequest {
                client_id: client_id@,
            },
            Stage::DecodingPayload { role, client_id, bytes, stamp } => StageView::DecodingPayload {
                role,
                client_id: client_id@,
                bytes: bytes@,
                stamp: stamp.0@,
            },
            Stage::ReadingClock { session, stamp } => StageView::ReadingClock {
                session: session@,
                stamp: stamp.0@,
            },
            Stage::CheckingStamp { session } => StageView::CheckingStamp { session: session@ },
            Stage::LookingUpRevocation { session } => StageView::LookingUpRevocation {
                session: session@,
            },
            Stage::FetchingUser { session } => StageView::FetchingUser { session: session@ },
            Stage::RecordingGrant { context } => StageView::RecordingGrant { context: context@ },
            Stage::RecordingDenial => StageView::RecordingDenial,
            Stage::Finished => StageView::Finished,
        }
    }
}

/// The machine for one request.
pub struct Enforcement {
    required: RequiredAuth,
    head: RequestHead,
    stage: Stage,
}

/// The machine as contracts see it.
pub struct EnforcementView {
    pub required: RequiredAuth,
    pub head: RequestHeadView,
    pub stage: StageView,
}

impl View for Enforcement {
    type V = EnforcementView;

    closed spec fn view(&self) -> EnforcementView {
        EnforcementView { required: self.required, head: self.head@, stage: self.stage@ }
    }
}

/// A machine and the action it asks for.
pub struct Turn {
    pub state: EnforcementView,
    pub action: ActionView,
}

/// Whether an event answers what the machine asked for.
pub open spec fn expects(stage: StageView, event: EventView) -> bool {
    match stage {
        StageView::SpendingToken => event is TokenSpent,
        StageView::ReadingBody => event is Body,
        StageView::VerifyingClient { .. } => event is Client,
        StageView::StampingRequest { .. } => event is Done,
        StageView::DecodingPayload { .. } => event is Payload,
        StageView::ReadingClock { .. } => event is Clock,
        StageView::CheckingStamp { .. } => event is StampValid,
        StageView::LookingUpRevocation { .. } => event is Revocation,
        StageView::FetchingUser { .. } => event is Fetched,
        StageView::RecordingGrant { .. } => event is Done,
        StageView::RecordingDenial => event is Done,
        StageView::Finished => false,
    }
}

/// The turn that moves to `stage` with `action`.
pub open spec fn moved(state: EnforcementView, stage: StageView, action: ActionView) -> Turn {
    Turn { state: EnforcementView { stage, ..state }, action }
}

/// The turn that refuses the request.
pub open spec fn rejected(state: EnforcementView, rejection: RejectionView) -> Turn {
    moved(state, StageView::Finished, ActionView::Reject { rejection })
}

/// The turn that lets the request through.
pub open spec fn admitted(state: EnforcementView, context: AuthContextView) -> Turn {
    moved(state, StageView::Finished, ActionView::Admit { context })
}

/// Whether requests of this tier spend a rate-limit token.
pub open spec fn rate_limited(required: RequiredAuth) -> bool {
    required is PublicBootstrap || required is ClientOnly
}

/// The rate-limit key of a request.
pub open spec fn rate_key(peer: Option<Seq<char>>) -> Seq<char> {
    match peer {
        Some(peer) => peer,
        None => UNKNOWN_PEER@,
    }
}

/// The body that was read, if it is within the limit.
pub open spec fn within_limit(body: Option<Seq<u8>>) -> Option<Seq<u8>> {
    match body {
        Some(bytes) => if bytes.len() <= MAX_BODY_BYTES {
            Some(bytes)
        } else {
            None
        },
        None => None,
    }
}

/// The turn that asks for the body.
pub open spec fn asking_body(state: EnforcementView) -> Turn {
    moved(state, StageView::ReadingBody, ActionView::ReadBody { limit: MAX_BODY_BYTES })
}

/// The first turn for a request.
pub open spec fn opening(required: RequiredAuth, head: RequestHeadView) -> Turn {
    let state = EnforcementView { required, head, stage: StageView::Finished };
    if rate_limited(required) {
        moved(
            state,
            StageView::SpendingToken,
            ActionView::SpendToken { key: rate_key(head.peer) },
        )
    } else {
        asking_body(state)
    }
}

/// The turn once the client is verified and stamped: a `Role` route goes on to
/// the session.
pub open spec fn after_client(state: EnforcementView, client_id: Seq<char>) -> Turn {
    match state.required {
        RequiredAuth::Role(role) => match session_parts(state.head.headers) {
            Err(rejection) => rejected(state, rejection),
            Ok((bytes, stamp)) => moved(
                state,
                StageView::DecodingPayload { role, client_id, bytes, stamp },
                ActionView::DecodePayload { payload: bytes },
            ),
        },
        _ => admitted(state, client_identity(client_id)),
    }
}

/// The turn once the user is fetched.
pub open spec fn after_fetch(
    state: EnforcementView,
    session: SessionView,
    user: Option<UserView>,
) -> Turn {
    match user {
        None => rejected(state, refusal(Status::Unauthorized, "unknown user"@)),
        Some(user) => if !user.active {
            rejected(state, refusal(Status::Unauthorized, "user disabled"@))
        } else if !user.roles.contains(session.role) {
            moved(
                state,
                StageView::RecordingDenial,
                ActionView::Record { decision: denied(user.id, session.role) },
            )
        } else {
            moved(
                state,
                StageView::RecordingGrant {
                    context: session_identity(
                        session.client_id,
                        user,
                        session.payload,
                        session.bytes,
                    ),
                },
                ActionView::Record {
                    decision: granted(
                        session.client_id,
                        user.id,
                        state.head.method,
                        state.head.path,
                    ),
                },
            )
        },
    }
}

/// The next turn.
pub open spec fn next(state: EnforcementView, event: EventView) -> Turn
    recommends
        expects(state.stage, event),
{
    match (state.stage, event) {
        (StageView::SpendingToken, EventView::TokenSpent { allowed }) => if !allowed {
            rejected(state, refusal(Status::TooManyRequests, "rate limited"@))
        } else if state.required is PublicBootstrap {
            admitted(state, anonymous())
        } else {
            asking_body(state)
        },
        (StageView::ReadingBody, EventView::Body { body }) => match within_limit(body) {
            None => rejected(state, refusal(Status::PayloadTooLarge, "request body too large"@)),
            Some(body) => match presented(state.head, sha256(body)) {
                Err(rejection) => rejected(state, rejection),
                Ok(found) => moved(
                    state,
                    StageView::VerifyingClient { canonical: found.canonical_request },
                    ActionView::VerifyClient { presented: found },
                ),
            },
        },
        (StageView::VerifyingClient { canonical }, EventView::Client { client_id }) => match client_id {
            None => rejected(state, refusal(Status::Unauthorized, "client auth failed"@)),
            Some(client_id) => moved(
                state,
                StageView::StampingRequest { client_id },
                ActionView::StampRequest { canonical },
            ),
        },
        (StageView::StampingRequest { client_id }, EventView::Done) => after_client(
            state,
            client_id,
        ),
        (
            StageView::DecodingPayload { role, client_id, bytes, stamp },
            EventView::Payload { payload },
        ) => match payload {
            None => rejected(state, refusal(Status::Unauthorized, "bad session"@)),
            Some(payload) => moved(
                state,
                StageView::ReadingClock {
                    session: SessionView { role, client_id, bytes, payload },
                    stamp,
                },
                ActionView::ReadClock,
            ),
        },
        (StageView::ReadingClock { session, stamp }, EventView::Clock { now }) => if expired(
            now,
            session.payload.exp_unix,
        ) {
            rejected(state, refusal(Status::Unauthorized, "session expired"@))
        } else {
            moved(
                state,
                StageView::CheckingStamp { session },
                ActionView::CheckStamp { stamp, payload: session.bytes },
            )
        },
        (StageView::CheckingStamp { session }, EventView::StampValid { valid }) => if !valid {
            rejected(state, refusal(Status::Unauthorized, "session invalid"@))
        } else {
            moved(
                state,
                StageView::LookingUpRevocation { session },
                ActionView::LookUpRevocation { nonce: session.payload.nonce },
            )
        },
        (StageView::LookingUpRevocation { session }, EventView::Revocation { status }) => {
            match revocation_refusal(status) {
                Some(rejection) => rejected(state, rejection),
                None => moved(
                    state,
                    StageView::FetchingUser { session },
                    ActionView::FetchUser { user_id: session.payload.user_id },
                ),
            }
        },
        (StageView::FetchingUser { session }, EventView::Fetched { user }) => after_fetch(
            state,
            session,
            user,
        ),
        (StageView::RecordingGrant { context }, EventView::Done) => admitted(state, context),
        (StageView::RecordingDenial, EventView::Done) => rejected(
            state,
            refusal(Status::Forbidden, "forbidden"@),
        ),
        _ => rejected(state, refusal(Status::InternalServerError, "internal error"@)),
    }
}

/// Opens the machine for a request.
pub fn enforce(required: RequiredAuth, head: RequestHead) -> (turn: (Enforcement, Action))
    ensures
        (Turn { state: turn.0@, action: turn.1@ }) == opening(required, head@),
{
    match required {
        RequiredAuth::Role(_) => (
            Enforcement { required, head, stage: Stage::ReadingBody },
            Action::ReadBody { limit: MAX_BODY_BYTES },
        ),
        _ => {
            let key = match &head.peer {
                Some(peer) => peer.clone(),
                None => UNKNOWN_PEER.to_owned(),
            };
            (
                Enforcement { required, head, stage: Stage::SpendingToken },
                Action::SpendToken { key },
            )
        },
    }
}

fn refuse(required: RequiredAuth, head: RequestHead, status: Status, message: &'static str) -> (turn:
    (Enforcement, Action))
    ensures
        turn.0@ == (EnforcementView { required, head: head@, stage: StageView::Finished }),
        turn.1@ == (ActionView::Reject { rejection: refusal(status, message@) }),
{
    reject(required, head, Rejection { status, message })
}

fn reject(required: RequiredAuth, head: RequestHead, rejection: Rejection) -> (turn: (
    Enforcement,
    Action,
))
    ensures
        turn.0@ == (EnforcementView { required, head: head@, stage: StageView::Finished }),
        turn.1@ == (ActionView::Reject { rejection: rejection@ }),
{
    (Enforcement { required, head, stage: Stage::Finished }, Action::Reject { rejection })
}

impl Enforcement {
    /// Takes the answer to the last action to the next one.
    #[verifier::rlimit(30)]
    pub fn step(self, event: Event) -> (turn: (Enforcement, Action))
        requires
            expects(self@.stage, event@),
        ensures
            (Turn { state: turn.0@, action: turn.1@ }) == next(self@, event@),
    {
        let required = self.required;
        let head = self.head;
        match (self.stage, event) {
            (Stage::SpendingToken, Event::TokenSpent { allowed }) => {
                if !allowed {
                    return refuse(required, head, Status::TooManyRequests, "rate limited");
                }
                match required {
                    RequiredAuth::PublicBootstrap => {
                        let context = AuthContext {
                            client_id: String::new(),
                            user: None,
                            session: None,
                            session_bytes: None,
                        };
                        (
                            Enforcement { required, head, stage: Stage::Finished },
                            Action::Admit { context },
                        )
                    },
                    _ => (
                        Enforcement { required, head, stage: Stage::ReadingBody },
                        Action::ReadBody { limit: MAX_BODY_BYTES },
                    ),
                }
            },
            (Stage::ReadingBody, Event::Body { body }) => {
                let body = match body {
                    Some(body) if body.len() <= MAX_BODY_BYTES => body,
                    _ => {
                        return refuse(
                            required,
                            head,
                            Status::PayloadTooLarge,
                            "request body too large",
                        );
                    },
                };
                match verify_client(&head, body.as_slice()) {
                    Err(rejection) => reject(required, head, rejection),
                    Ok(presented) => {
                        let canonical = copy_bytes(&presented.canonical_request);
                        (
                            Enforcement {
                                required,
                                head,
                                stage: Stage::VerifyingClient { canonical },
                            },
                            Action::VerifyClient { presented },
                        )
                    },
                }
            },
            (Stage::VerifyingClient { canonical }, Event::Client { client_id }) => match client_id {
                None => refuse(required, head, Status::Unauthorized, "client auth failed"),
                Some(client_id) => (
                    Enforcement { required, head, stage: Stage::StampingRequest { client_id } },
                    Action::StampRequest { canonical },
                ),
            },
            (Stage::StampingRequest { client_id }, Event::Done) => match required {
                RequiredAuth::Role(role) => match session_token(&head.headers) {
                    Err(rejection) => reject(required, head, rejection),
                    Ok((bytes, stamp)) => {
                        let payload = copy_bytes(&bytes);
                        (
                            Enforcement {
                                required,
                                head,
                                stage: Stage::DecodingPayload { role, client_id, bytes, stamp },
                            },
                            Action::DecodePayload { payload },
                        )
                    },
                },
                _ => {
                    let context = AuthContext {
                        client_id,
                        user: None,
                        session: None,
                        session_bytes: None,
                    };
                    (
                        Enforcement { required, head, stage: Stage::Finished },
                        Action::Admit { context },
                    )
                },
            },
            (
                Stage::DecodingPayload { role, client_id, bytes, stamp },
                Event::Payload { payload },
            ) => match payload {
                None => refuse(required, head, Status::Unauthorized, "bad session"),
                Some(payload) => (
                    Enforcement {
                        required,
                        head,
                        stage: Stage::ReadingClock {
                            session: Session { role, client_id, bytes, payload },
                            stamp,
                        },
                    },
                    Action::ReadClock,
                ),
            },
            (Stage::ReadingClock { session, stamp }, Event::Clock { now }) => {
                let fresh = match now {
                    Some(now) => now <= session.payload.exp_unix,
                    None => false,
                };
                if !fresh {
                    return refuse(required, head, Status::Unauthorized, "session expired");
                }
                let payload = copy_bytes(&session.bytes);
                (
                    Enforcement { required, head, stage: Stage::CheckingStamp { session } },
                    Action::CheckStamp { stamp, payload },
                )
            },
            (Stage::CheckingStamp { session }, Event::StampValid { valid }) => {
                if !valid {
                    return refuse(required, head, Status::Unauthorized, "session invalid");
                }
                let nonce = session.payload.nonce.clone();
                (
                    Enforcement { required, head, stage: Stage::LookingUpRevocation { session } },
                    Action::LookUpRevocation { nonce },
                )
            },
            (Stage::LookingUpRevocation { session }, Event::Revocation { status }) => {
                match refuse_revoked(status) {
                    Some(rejection) => reject(required, head, rejection),
                    None => {
                        let user_id = session.payload.user_id.clone();
                        (
                            Enforcement { required, head, stage: Stage::FetchingUser { session } },
                            Action::FetchUser { user_id },
                        )
                    },
                }
            },
            (Stage::FetchingUser { session }, Event::Fetched { user }) => {
                let user = match user {
                    Some(user) => user,
                    None => {
                        return refuse(required, head, Status::Unauthorized, "unknown user");
                    },
                };
                if !user.active {
                    return refuse(required, head, Status::Unauthorized, "user disabled");
                }
                match authorize(&user, session.role) {
                    Some(decision) => (
                        Enforcement { required, head, stage: Stage::RecordingDenial },
                        Action::Record { decision },
                    ),
                    None => {
                        let decision = record_grant(
                            session.client_id.as_str(),
                            user.id.as_str(),
                            head.method.as_str(),
                            head.path.as_str(),
                        );
                        let context = AuthContext {
                            client_id: session.client_id,
                            user: Some(user),
                            session: Some(session.payload),
                            session_bytes: Some(session.bytes),
                        };
                        (
                            Enforcement { required, head, stage: Stage::RecordingGrant { context } },
                            Action::Record { decision },
                        )
                    },
                }
            },
            (Stage::RecordingGrant { context }, Event::Done) => (
                Enforcement { required, head, stage: Stage::Finished },
                Action::Admit { context },
            ),
            (Stage::RecordingDenial, Event::Done) => refuse(
                required,
                head,
                Status::Forbidden,
                "forbidden",
            ),
            _ => refuse(required, head, Status::InternalServerError, "internal error"),
        }
    }
}

} // verus!
