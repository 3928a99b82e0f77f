//! What each endpoint asks of the components behind it, and what it answers
//! with once they have replied.
//!
//! Answers stay generic: why a component refused is recorded in the audit chain
//! at most, never sent.

use vstd::prelude::*;
use vstd::string::*;

use crate::auth::{
    bearer, bytes_view, session_identity, session_parts, text_view, AuthContext, AuthContextView,
    RequestHeadView, RequiredAuth, BEARER, H_AUTHORIZATION,
};
use crate::auth_laws::{client_verified, verdict, Answers};
use crate::config::{manifest_views, ConfigDocument, PluginManifest, PluginManifestView};
use crate::headers::{header_text, HeaderView};
use crate::kanban::{columns_of, group_by_state, parse_states, selected, states_view, TaskState};
use crate::outside::{
    base64_bytes, base64_url_text, decode_base64, encode_base64_url, parse_uuid, uuid_bits,
};
use crate::reply::{
    err, error_answer, success_answer, Answer, AnswerView, Body, BodyView, Decision, DecisionView,
    RejectionView, Status,
};
use crate::session::{token_parts, SessionPayload, SessionPayloadView};
use crate::state::SESSION_TTL_SECS;
use crate::text::after_prefix;
use crate::users::{Role, User, UserView};

verus! {

// ---------------------------------------------------------------------------
// Request bodies
// ---------------------------------------------------------------------------

/// The body of an enrollment.
#[derive(Debug)]
pub struct EnrollBody {
    pub api_key: String,
    pub client_name: String,
    pub public_key_b64: String,
}

/// The body of a login.
#[derive(Debug)]
pub struct LoginBody {
    pub username: String,
    pub password: String,
}

/// The body of a task creation. The dependencies are task ids.
#[derive(Debug)]
pub struct CreateTaskBody {
    pub title: String,
    pub depends_on: Vec<u128>,
}

/// The body of a transition.
#[derive(Debug)]
pub struct TransitionBody {
    pub to: TaskState,
    pub reason: Option<String>,
}

/// The body of a block.
#[derive(Debug)]
pub struct BlockBody {
    pub reason: String,
}

/// The query parameters of the board.
#[derive(Debug)]
pub struct BoardParams {
    /// Comma-separated state names, such as `Todo,Running`.
    pub states: Option<String>,
}

// ---------------------------------------------------------------------------
// Enrollment
// ---------------------------------------------------------------------------

/// What the client-auth scheme is asked to enroll.
#[derive(Debug)]
pub struct EnrollmentRequest {
    pub api_key: String,
    pub client_name: String,
    pub public_key: Vec<u8>,
}

/// An enrollment as contracts see it.
pub struct EnrollmentView {
    pub api_key: Seq<char>,
    pub client_name: Seq<char>,
    pub public_key: Seq<u8>,
}

impl View for EnrollmentRequest {
    type V = EnrollmentView;

    open spec fn view(&self) -> EnrollmentView {
        EnrollmentView {
            api_key: self.api_key@,
            client_name: self.client_name@,
            public_key: self.public_key@,
        }
    }
}

/// The enrollment that a body asks for, given what its key decodes to.
pub open spec fn enrollment(body: EnrollBody, public_key: Option<Seq<u8>>) -> Result<
    EnrollmentView,
    AnswerView,
> {
    match public_key {
        Some(public_key) => Ok(
            EnrollmentView {
                api_key: body.api_key@,
                client_name: body.client_name@,
                public_key,
            },
        ),
        None => Err(error_answer(Status::BadRequest, "public_key_b64 is not valid base64"@)),
    }
}

/// Makes the enrollment request, given what the key decodes to.
pub fn enrollment_request(body: EnrollBody, public_key: Option<Vec<u8>>) -> (request: Result<
    EnrollmentRequest,
    Answer,
>)
    ensures
        match request {
            Ok(request) => enrollment(body, bytes_view(public_key)) == Ok::<
                EnrollmentView,
                AnswerView,
            >(request@),
            Err(answer) => enrollment(body, bytes_view(public_key)) == Err::<
                EnrollmentView,
                AnswerView,
            >(answer@),
        },
{
    match public_key {
        Some(public_key) => Ok(
            EnrollmentRequest { api_key: body.api_key, client_name: body.client_name, public_key },
        ),
        None => Err(err(Status::BadRequest, "public_key_b64 is not valid base64")),
    }
}

/// Reads an enrollment: the raw key, decoded, with the rest as it came.
pub fn enroll(body: EnrollBody) -> (request: Result<EnrollmentRequest, Answer>)
    ensures
        match request {
            Ok(request) => enrollment(body, base64_bytes(body.public_key_b64@)) == Ok::<
                EnrollmentView,
                AnswerView,
            >(request@),
            Err(answer) => enrollment(body, base64_bytes(body.public_key_b64@)) == Err::<
                EnrollmentView,
                AnswerView,
            >(answer@),
        },
{
    let public_key = decode_base64(body.public_key_b64.as_str());
    assert(bytes_view(public_key) == base64_bytes(body.public_key_b64@));
    enrollment_request(body, public_key)
}

/// The answer to an enrollment. Which step refused it is not disclosed.
pub open spec fn enroll_answer(accepted: bool) -> AnswerView {
    if accepted {
        success_answer(BodyView::Credential)
    } else {
        error_answer(Status::Unauthorized, "enrollment rejected"@)
    }
}

/// Answers an enrollment, given whether the scheme issued a credential.
pub fn enrolled(accepted: bool) -> (answer: Answer)
    ensures
        answer@ == enroll_answer(accepted),
{
    if accepted {
        Answer { status: Status::Success, body: Body::Credential }
    } else {
        err(Status::Unauthorized, "enrollment rejected")
    }
}

// ---------------------------------------------------------------------------
// Login and logout
// ---------------------------------------------------------------------------

/// How the directory's check of a username and password ended.
#[derive(Debug)]
pub enum Authentication {
    /// The credentials are those of this user.
    Accepted { user: User },
    /// The credentials are refused.
    Refused,
    /// The check did not run to its end.
    Failed,
}

/// The nonce of a session, from sixteen random bytes.
pub fn mint_nonce(random: &[u8; 16]) -> (nonce: String)
    ensures
        nonce@ == base64_url_text(random@),
        nonce@.len() == 22,
{
    encode_base64_url(random)
}

/// The session of a user who logs in: it lives half an hour, and names the
/// roles that the user holds.
pub open spec fn new_session(user: UserView, nonce: Seq<char>, now: i64) -> SessionPayloadView {
    SessionPayloadView {
        user_id: user.id,
        roles: user.roles,
        exp_unix: (now + SESSION_TTL_SECS) as i64,
        nonce,
    }
}

/// Opens the session of a user who logged in.
pub fn login(user: User, nonce: String, now: i64) -> (payload: SessionPayload)
    requires
        now + SESSION_TTL_SECS <= i64::MAX,
    ensures
        payload@ == new_session(user@, nonce@, now),
        payload@.exp_unix == now + SESSION_TTL_SECS,
{
    SessionPayload {
        user_id: user.id,
        roles: user.roles,
        exp_unix: now + SESSION_TTL_SECS,
        nonce,
    }
}

/// What is recorded of a login.
pub open spec fn login_record(user_id: Seq<char>) -> DecisionView {
    DecisionView { allowed: true, detail: "login ok user="@ + user_id }
}

/// The answer to a login: the token, and when it expires.
pub open spec fn login_answer(token: Seq<char>, exp_unix: i64) -> AnswerView {
    success_answer(BodyView::Session { token, exp_unix })
}

/// Ends a login whose token is minted: what to record, and the answer.
pub fn logged_in(user_id: &str, token: String, exp_unix: i64) -> (end: (Decision, Answer))
    ensures
        end.0@ == login_record(user_id@),
        end.1@ == login_answer(token@, exp_unix),
{
    let mut detail = "login ok user=".to_owned();
    detail.append(user_id);
    (
        Decision { allowed: true, detail },
        Answer { status: Status::Success, body: Body::Session { token, exp_unix } },
    )
}

/// What is recorded of a refused login.
pub open spec fn login_failure() -> DecisionView {
    DecisionView { allowed: false, detail: "login failed"@ }
}

/// The answer to a refused login.
pub open spec fn login_refusal() -> AnswerView {
    error_answer(Status::Unauthorized, "invalid credentials"@)
}

/// Ends a refused login: what to record, and the answer.
pub fn login_refused() -> (end: (Decision, Answer))
    ensures
        end.0@ == login_failure(),
        end.1@ == login_refusal(),
{
    (
        Decision { allowed: false, detail: "login failed".to_owned() },
        err(Status::Unauthorized, "invalid credentials"),
    )
}

/// The session that a logout ends: its nonce is to be revoked until its
/// expiry, and then the stamp over exactly these bytes invalidated.
#[derive(Debug)]
pub struct EndedSession {
    pub nonce: String,
    pub exp_unix: i64,
    pub payload_bytes: Vec<u8>,
}

/// An ended session as contracts see it.
pub struct EndedSessionView {
    pub nonce: Seq<char>,
    pub exp_unix: i64,
    pub payload_bytes: Seq<u8>,
}

impl View for EndedSession {
    type V = EndedSessionView;

    open spec fn view(&self) -> EndedSessionView {
        EndedSessionView {
            nonce: self.nonce@,
            exp_unix: self.exp_unix,
            payload_bytes: self.payload_bytes@,
        }
    }
}

/// The session that an identity's logout ends.
pub open spec fn ended_session(context: AuthContextView) -> Result<EndedSessionView, AnswerView> {
    match (context.session, context.session_bytes) {
        (Some(payload), Some(payload_bytes)) => Ok(
            EndedSessionView { nonce: payload.nonce, exp_unix: payload.exp_unix, payload_bytes },
        ),
        _ => Err(error_answer(Status::Unauthorized, "no session"@)),
    }
}

/// Reads the session to end from the verified identity.
pub fn logout(context: AuthContext) -> (session: Result<EndedSession, Answer>)
    ensures
        match session {
            Ok(session) => ended_session(context@) == Ok::<EndedSessionView, AnswerView>(session@),
            Err(answer) => ended_session(context@) == Err::<EndedSessionView, AnswerView>(answer@),
        },
{
    match (context.session, context.session_bytes) {
        (Some(payload), Some(payload_bytes)) => Ok(
            EndedSession { nonce: payload.nonce, exp_unix: payload.exp_unix, payload_bytes },
        ),
        _ => Err(err(Status::Unauthorized, "no session")),
    }
}

/// The answer to a logout whose revocation could not be written.
pub open spec fn revocation_failed() -> AnswerView {
    error_answer(Status::InternalServerError, "revocation failed"@)
}

/// The answer of an operation that has nothing else to say.
pub fn acknowledged() -> (answer: Answer)
    ensures
        answer@ == success_answer(BodyView::Acknowledged),
{
    Answer { status: Status::Success, body: Body::Acknowledged }
}

// ---------------------------------------------------------------------------
// Board and tasks
// ---------------------------------------------------------------------------

/// The states that the board is asked for, or the answer to a query that names
/// an unknown one.
pub open spec fn board_query(params: BoardParams) -> Result<Option<Seq<TaskState>>, AnswerView> {
    match selected(text_view(params.states)) {
        Ok(states) => Ok(states),
        Err(message) => Err(error_answer(Status::BadRequest, message)),
    }
}

/// Reads the states that the board is asked for; `None` is all of them.
pub fn board(params: &BoardParams) -> (states: Result<Option<Vec<TaskState>>, Answer>)
    ensures
        match states {
            Ok(states) => board_query(*params) == Ok::<Option<Seq<TaskState>>, AnswerView>(
                states_view(states),
            ),
            Err(answer) => board_query(*params) == Err::<Option<Seq<TaskState>>, AnswerView>(
                answer@,
            ),
        },
{
    let query: Option<&str> = match &params.states {
        Some(text) => Some(text.as_str()),
        None => None,
    };
    match parse_states(query) {
        Ok(states) => Ok(states),
        Err(message) => Err(err(Status::BadRequest, message.as_str())),
    }
}

/// The answer to a listing, given the state of each listed task.
pub open spec fn board_answer(listing: Option<Seq<TaskState>>) -> AnswerView {
    match listing {
        Some(states) => success_answer(BodyView::Columns { columns: columns_of(states) }),
        None => error_answer(Status::InternalServerError, "board listing failed"@),
    }
}

/// Answers a listing, given the state of each listed task, or `None` if the
/// board could not list them.
pub fn board_listed(listing: Option<Vec<TaskState>>) -> (answer: Answer)
    ensures
        answer@ == board_answer(states_view(listing)),
{
    match listing {
        Some(states) => Answer {
            status: Status::Success,
            body: Body::Columns { columns: group_by_state(&states) },
        },
        None => err(Status::InternalServerError, "board listing failed"),
    }
}

/// The answer about a task that is not there.
pub open spec fn no_such_task() -> AnswerView {
    error_answer(Status::NotFound, "task not found"@)
}

/// The task that a path names, given the id it parses to.
pub open spec fn task_named(parsed: Option<u128>) -> Result<u128, AnswerView> {
    match parsed {
        Some(id) => Ok(id),
        None => Err(no_such_task()),
    }
}

/// Finds the task that a path names, given the id it parses to.
pub fn named_task(parsed: Option<u128>) -> (id: Result<u128, Answer>)
    ensures
        match id {
            Ok(id) => task_named(parsed) == Ok::<u128, AnswerView>(id),
            Err(answer) => task_named(parsed) == Err::<u128, AnswerView>(answer@),
        },
{
    match parsed {
        Some(id) => Ok(id),
        None => Err(err(Status::NotFound, "task not found")),
    }
}

/// Reads a task id from the path. What is no id names no task.
pub fn task_id(raw: &str) -> (id: Result<u128, Answer>)
    ensures
        match id {
            Ok(id) => task_named(uuid_bits(raw@)) == Ok::<u128, AnswerView>(id),
            Err(answer) => task_named(uuid_bits(raw@)) == Err::<u128, AnswerView>(answer@),
        },
{
    named_task(parse_uuid(raw))
}

/// The answer to a fetch.
pub open spec fn task_answer(found: bool) -> AnswerView {
    if found {
        success_answer(BodyView::Task)
    } else {
        no_such_task()
    }
}

/// Answers a fetch, given whether the board has the task.
pub fn get_task(found: bool) -> (answer: Answer)
    ensures
        answer@ == task_answer(found),
{
    if found {
        Answer { status: Status::Success, body: Body::Task }
    } else {
        err(Status::NotFound, "task not found")
    }
}

/// The board's name for whoever acts: the verified user, never the body.
pub open spec fn actor(context: AuthContextView) -> Seq<char> {
    match context.user {
        Some(user) => "human:"@ + user.id,
        None => "human:unknown"@,
    }
}

/// Derives the board's actor from the verified identity.
pub fn actor_of(context: &AuthContext) -> (name: String)
    ensures
        name@ == actor(context@),
{
    match &context.user {
        Some(user) => {
            let mut name = "human:".to_owned();
            name.append(user.id.as_str());
            name
        },
        None => "human:unknown".to_owned(),
    }
}

/// A task to create.
#[derive(Debug)]
pub struct NewTask {
    pub title: String,
    pub actor: String,
    pub depends_on: Vec<u128>,
}

/// A task to create as contracts see it.
pub struct NewTaskView {
    pub title: Seq<char>,
    pub actor: Seq<char>,
    pub depends_on: Seq<u128>,
}

impl View for NewTask {
    type V = NewTaskView;

    open spec fn view(&self) -> NewTaskView {
        NewTaskView {
            title: self.title@,
            actor: self.actor@,
            depends_on: self.depends_on@,
        }
    }
}

/// The task that a body asks to create.
pub open spec fn new_task(context: AuthContextView, body: CreateTaskBody) -> NewTaskView {
    NewTaskView {
        title: body.title@,
        actor: actor(context),
        depends_on: body.depends_on@,
    }
}

/// Makes the task to create.
pub fn create_task(context: &AuthContext, body: CreateTaskBody) -> (task: NewTask)
    ensures
        task@ == new_task(context@, body),
{
    NewTask { title: body.title, actor: actor_of(context), depends_on: body.depends_on }
}

/// The answer to a creation, given the new task's id.
pub open spec fn creation_answer(id: Option<u128>) -> AnswerView {
    match id {
        Some(id) => AnswerView { status: Status::Created, body: BodyView::TaskId { id } },
        None => error_answer(Status::BadRequest, "task creation failed"@),
    }
}

/// Answers a creation.
pub fn task_created(id: Option<u128>) -> (answer: Answer)
    ensures
        answer@ == creation_answer(id),
{
    match id {
        Some(id) => Answer { status: Status::Created, body: Body::TaskId { id } },
        None => err(Status::BadRequest, "task creation failed"),
    }
}

/// A transition to make.
#[derive(Debug)]
pub struct Transition {
    pub to: TaskState,
    pub actor: String,
    pub reason: Option<String>,
}

/// A transition as contracts see it.
pub struct TransitionView {
    pub to: TaskState,
    pub actor: Seq<char>,
    pub reason: Option<Seq<char>>,
}

impl View for Transition {
    type V = TransitionView;

    open spec fn view(&self) -> TransitionView {
        TransitionView { to: self.to, actor: self.actor@, reason: text_view(self.reason) }
    }
}

/// The transition that a body asks for.
pub open spec fn transition(context: AuthContextView, body: TransitionBody) -> TransitionView {
    TransitionView { to: body.to, actor: actor(context), reason: text_view(body.reason) }
}

/// Makes the transition.
pub fn transition_task(context: &AuthContext, body: TransitionBody) -> (made: Transition)
    ensures
        made@ == transition(context@, body),
{
    Transition { to: body.to, actor: actor_of(context), reason: body.reason }
}

/// The answer to an operation that is accepted or refused.
pub open spec fn verdict_answer(accepted: bool, status: Status, message: Seq<char>) -> AnswerView {
    if accepted {
        success_answer(BodyView::Acknowledged)
    } else {
        error_answer(status, message)
    }
}

/// Answers an operation that is accepted or refused.
pub fn accepted_or(accepted: bool, status: Status, message: &str) -> (answer: Answer)
    ensures
        answer@ == verdict_answer(accepted, status, message@),
{
    if accepted {
        acknowledged()
    } else {
        err(status, message)
    }
}

/// The answer to a transition.
pub open spec fn transition_answer(accepted: bool) -> AnswerView {
    verdict_answer(accepted, Status::BadRequest, "transition rejected"@)
}

/// The answer to a claim.
pub open spec fn claim_answer(accepted: bool) -> AnswerView {
    verdict_answer(accepted, Status::Conflict, "claim rejected"@)
}

/// A block to place, by a human.
#[derive(Debug)]
pub struct Block {
    pub actor: String,
    pub reason: String,
    pub blocked_by: String,
}

/// A block as contracts see it.
pub struct BlockView {
    pub actor: Seq<char>,
    pub reason: Seq<char>,
    pub blocked_by: Seq<char>,
}

impl View for Block {
    type V = BlockView;

    open spec fn view(&self) -> BlockView {
        BlockView { actor: self.actor@, reason: self.reason@, blocked_by: self.blocked_by@ }
    }
}

/// The block that a body asks for: whoever acts is whom it is blocked by.
pub open spec fn block(context: AuthContextView, body: BlockBody) -> BlockView {
    BlockView { actor: actor(context), reason: body.reason@, blocked_by: actor(context) }
}

/// Makes the block.
pub fn block_task(context: &AuthContext, body: BlockBody) -> (placed: Block)
    ensures
        placed@ == block(context@, body),
{
    let name = actor_of(context);
    Block { blocked_by: name.clone(), actor: name, reason: body.reason }
}

/// The answer to a block.
pub open spec fn block_answer(accepted: bool) -> AnswerView {
    verdict_answer(accepted, Status::BadRequest, "block rejected"@)
}

// ---------------------------------------------------------------------------
// Configuration, plugins, logs, audit
// ---------------------------------------------------------------------------

/// How reading the configuration ended.
#[derive(Debug)]
pub enum ConfigRead {
    Rendered { config: ConfigDocument },
    LoadFailed,
    SerialiseFailed,
}

/// The answer to a read of the configuration: its text and its security part,
/// as they were read.
pub open spec fn config_answer(read: ConfigRead) -> AnswerView {
    match read {
        ConfigRead::Rendered { config } => success_answer(BodyView::Config { config: config@ }),
        ConfigRead::LoadFailed => error_answer(
            Status::InternalServerError,
            "config load failed"@,
        ),
        ConfigRead::SerialiseFailed => error_answer(
            Status::InternalServerError,
            "config serialise failed"@,
        ),
    }
}

/// Answers a read of the configuration.
pub fn get_config(read: ConfigRead) -> (answer: Answer)
    ensures
        answer@ == config_answer(read),
{
    match read {
        ConfigRead::Rendered { config } => Answer {
            status: Status::Success,
            body: Body::Config { config },
        },
        ConfigRead::LoadFailed => err(Status::InternalServerError, "config load failed"),
        ConfigRead::SerialiseFailed => err(Status::InternalServerError, "config serialise failed"),
    }
}

/// Which check of a submitted configuration refused it.
#[derive(Debug, Clone, Copy, PartialEq, Eq, Structural)]
pub enum ConfigCheck {
    Parse,
    Validation,
}

/// What is recorded of a refused configuration: the detail stays here.
pub open spec fn config_record(check: ConfigCheck, detail: Seq<char>) -> DecisionView {
    DecisionView {
        allowed: false,
        detail: match check {
            ConfigCheck::Parse => "config parse rejected: "@ + detail,
            ConfigCheck::Validation => "config validation rejected: "@ + detail,
        },
    }
}

/// The answer to a refused configuration, without the detail.
pub open spec fn config_refusal() -> AnswerView {
    error_answer(Status::BadRequest, "invalid configuration"@)
}

/// Ends the submission of a refused configuration: what to record, and the
/// answer.
pub fn put_config(check: ConfigCheck, detail: &str) -> (end: (Decision, Answer))
    ensures
        end.0@ == config_record(check, detail@),
        end.1@ == config_refusal(),
{
    let mut recorded = match check {
        ConfigCheck::Parse => "config parse rejected: ".to_owned(),
        ConfigCheck::Validation => "config validation rejected: ".to_owned(),
    };
    recorded.append(detail);
    (
        Decision { allowed: false, detail: recorded },
        err(Status::BadRequest, "invalid configuration"),
    )
}

/// The answer to a save of the configuration.
pub open spec fn save_answer(saved: bool) -> AnswerView {
    verdict_answer(saved, Status::InternalServerError, "config save failed"@)
}

/// The answer to a listing of the plugins: every configured one, in the order
/// of the configuration, disabled ones too; an error if it did not load.
pub open spec fn plugins_answer(plugins: Option<Seq<PluginManifestView>>) -> AnswerView {
    match plugins {
        Some(plugins) => success_answer(BodyView::Plugins { plugins }),
        None => error_answer(Status::InternalServerError, "config load failed"@),
    }
}

/// Optional plugins as contracts see them.
pub open spec fn plugins_view(plugins: Option<Vec<PluginManifest>>) -> Option<
    Seq<PluginManifestView>,
> {
    match plugins {
        Some(plugins) => Some(manifest_views(plugins@)),
        None => None,
    }
}

/// Answers a listing of the plugins, given those that are configured, or `None`
/// if the configuration did not load.
pub fn plugins(configured: Option<Vec<PluginManifest>>) -> (answer: Answer)
    ensures
        answer@ == plugins_answer(plugins_view(configured)),
{
    match configured {
        Some(plugins) => Answer { status: Status::Success, body: Body::Plugins { plugins } },
        None => err(Status::InternalServerError, "config load failed"),
    }
}

/// How reading the call log ended.
#[derive(Debug, Clone, Copy, PartialEq, Eq, Structural)]
pub enum LogRead {
    NotConfigured,
    Entries,
    Failed,
}

/// The answer to a read of the call log.
pub open spec fn logs_answer(read: LogRead) -> AnswerView {
    match read {
        LogRead::NotConfigured => success_answer(BodyView::NoLogs),
        LogRead::Entries => success_answer(BodyView::Logs),
        LogRead::Failed => error_answer(Status::InternalServerError, "log read failed"@),
    }
}

/// Answers a read of the call log.
pub fn logs(read: LogRead) -> (answer: Answer)
    ensures
        answer@ == logs_answer(read),
{
    match read {
        LogRead::NotConfigured => Answer { status: Status::Success, body: Body::NoLogs },
        LogRead::Entries => Answer { status: Status::Success, body: Body::Logs },
        LogRead::Failed => err(Status::InternalServerError, "log read failed"),
    }
}

/// Answers a read of the audit chain, given whether it verifies just now.
pub fn audit(chain_verified: bool) -> (answer: Answer)
    ensures
        answer@ == success_answer(BodyView::Audit { chain_verified }),
{
    Answer { status: Status::Success, body: Body::Audit { chain_verified } }
}

// ---------------------------------------------------------------------------
// Laws
// ---------------------------------------------------------------------------

/// An authorization header made of the bearer prefix and a token presents
/// exactly that token.
pub proof fn bearer_carries_the_token(headers: Seq<HeaderView>, token: Seq<char>)
    requires
        header_text(headers, H_AUTHORIZATION@) == Some(BEARER@ + token),
    ensures
        bearer(headers) == Some(token),
        token_parts(token) matches Some(parts) ==> session_parts(headers) == Ok::<
            (Seq<u8>, Seq<u8>),
            RejectionView,
        >(parts),
{
    let text = BEARER@ + token;
    assert(text.take(BEARER@.len() as int) =~= BEARER@);
    assert(text.skip(BEARER@.len() as int) =~= token);
    assert(after_prefix(text, BEARER@) == Some(token));
}

/// Logging in works: the session that a login opens is let through on every
/// route whose role the user holds, for half an hour, as long as the stamp
/// holds, it is not logged out, and the user stays active and keeps the role.
pub proof fn login_opens_a_session(
    user: UserView,
    nonce: Seq<char>,
    opened: i64,
    token: Seq<char>,
    payload_json: Seq<u8>,
    stamp: Seq<u8>,
    role: Role,
    head: RequestHeadView,
    answers: Answers,
)
    requires
        opened + SESSION_TTL_SECS <= i64::MAX,
        token_parts(token) == Some((payload_json, stamp)),
        header_text(head.headers, H_AUTHORIZATION@) == Some(BEARER@ + token),
        client_verified(head, answers),
        answers.payload == Some(new_session(user, nonce, opened)),
        answers.clock matches Some(now) && now <= opened + SESSION_TTL_SECS,
        answers.stamp_valid,
        answers.revocation is NotRevoked,
        answers.user == Some(user),
        user.active,
        user.roles.contains(role),
    ensures
        verdict(RequiredAuth::Role(role), head, answers) == Ok::<
            AuthContextView,
            RejectionView,
        >(
            session_identity(
                answers.client->0,
                user,
                new_session(user, nonce, opened),
                payload_json,
            ),
        ),
{
    bearer_carries_the_token(head.headers, token);
}

} // verus!
