//! The endpoints as machines.
//!
//! [`begin`] opens the machine for a call that the middleware let through; each
//! [`Step`] it asks for is answered by an [`Outcome`] that [`Progress::follow`]
//! takes to the next step, until the answer stands.

use vstd::prelude::*;
use vstd::string::*;

use crate::auth::{AuthContext, AuthContextView};
use crate::config::PluginManifest;
use crate::handlers::{
    accepted_or, acknowledged, actor, actor_of, audit, block, block_answer, block_task, board,
    board_answer, board_listed, board_query, claim_answer, config_answer, config_record,
    config_refusal, create_task, creation_answer, ended_session, enroll, enroll_answer, enrolled,
    enrollment, get_config, get_task, logged_in, login, login_answer, login_failure, login_record,
    login_refusal, login_refused, logout, logs, logs_answer, mint_nonce, new_session, new_task,
    plugins, plugins_answer, plugins_view, put_config, revocation_failed, save_answer, task_answer,
    task_created, task_id, task_named, transition, transition_answer, transition_task,
    Authentication, Block, BlockBody, BlockView, BoardParams, ConfigCheck, ConfigRead,
    CreateTaskBody, EndedSession, EndedSessionView, EnrollBody, EnrollmentRequest, EnrollmentView,
    LogRead, LoginBody, NewTask, NewTaskView, Transition, TransitionBody, TransitionView,
};
use crate::kanban::{states_view, TaskState};
use crate::outside::{base64_bytes, base64_len, base64_url_text, uuid_bits};
use crate::reply::{
    err, error_answer, success_answer, Answer, AnswerView, BodyView, Decision, DecisionView,
    Status,
};
use crate::session::{mint, token_parts, token_text, SessionPayload, SessionPayloadView, Stamp};
use crate::state::{prunable_ids, revoke, RevocationPlan, RevocationRecord, SESSION_TTL_SECS};
use crate::text::copy_bytes;
use crate::users::{User, UserView};

verus! {

/// A decoded call of an endpoint.
#[allow(inconsistent_fields)]
#[derive(Debug)]
pub enum Call {
    Enroll { body: EnrollBody },
    Login { body: LoginBody },
    Logout,
    Board { params: BoardParams },
    GetTask { id: String },
    CreateTask { body: CreateTaskBody },
    TransitionTask { id: String, body: TransitionBody },
    ClaimTask { id: String },
    BlockTask { id: String, body: BlockBody },
    GetConfig,
    PutConfig { text: String },
    Plugins,
    Logs,
    Audit,
}

/// What the machine asks for next. The last one ends it.
#[derive(Debug)]
pub enum Step {
    /// Have the client-auth scheme enroll a client.
    Enroll { request: EnrollmentRequest },
    /// Wait for one of the slots that password checks may run in, and keep it
    /// until the call is answered.
    TakeSlot,
    /// Have the directory check credentials.
    Authenticate { username: String, password: String },
    /// Draw sixteen random bytes.
    DrawNonce,
    /// Read the clock.
    ReadClock,
    /// Encode the session payload.
    EncodePayload { payload: SessionPayload },
    /// Stamp the encoded payload.
    StampPayload { payload_json: Vec<u8> },
    /// Append this decision to the audit chain.
    Record { decision: Decision },
    /// List the denylist.
    ListRevocations,
    /// Delete and put denylist records.
    Revoke { plan: RevocationPlan },
    /// Stamp these bytes, and invalidate the stamp.
    InvalidateStamp { payload_bytes: Vec<u8> },
    /// List the tasks in these states; all of them for `None`.
    ListBoard { states: Option<Vec<TaskState>> },
    /// Fetch a task.
    FetchTask { id: u128 },
    /// Create a task.
    CreateTask { task: NewTask },
    /// Move a task to another state.
    TransitionTask { id: u128, transition: Transition },
    /// Claim a task for an actor.
    ClaimTask { id: u128, actor: String },
    /// Block a task.
    BlockTask { id: u128, block: Block },
    /// Load the configuration and render it.
    RenderConfig,
    /// Parse a configuration.
    ParseConfig { text: String },
    /// Validate the configuration that was parsed.
    ValidateConfig,
    /// Save the configuration that was parsed.
    SaveConfig,
    /// Load the configuration's plugins.
    ReadPlugins,
    /// Read the call log.
    ReadLogs,
    /// Verify the audit chain, and take a snapshot of it.
    ReadAudit,
    /// Answer.
    Answer { answer: Answer },
}

/// A step as contracts see it.
pub enum StepView {
    Enroll { request: EnrollmentView },
    TakeSlot,
    Authenticate { username: Seq<char>, password: Seq<char> },
    DrawNonce,
    ReadClock,
    EncodePayload { payload: SessionPayloadView },
    StampPayload { payload_json: Seq<u8> },
    Record { decision: DecisionView },
    ListRevocations,
    Revoke { delete: Seq<Seq<char>>, nonce: Seq<char>, exp_unix: Option<i64> },
    InvalidateStamp { payload_bytes: Seq<u8> },
    ListBoard { states: Option<Seq<TaskState>> },
    FetchTask { id: u128 },
    CreateTask { task: NewTaskView },
    TransitionTask { id: u128, transition: TransitionView },
    ClaimTask { id: u128, actor: Seq<char> },
    BlockTask { id: u128, block: BlockView },
    RenderConfig,
    ParseConfig { text: Seq<char> },
    ValidateConfig,
    SaveConfig,
    ReadPlugins,
    ReadLogs,
    ReadAudit,
    Answer { answer: AnswerView },
}

impl View for Step {
    type V = StepView;

    open spec fn view(&self) -> StepView {
        match *self {
            Step::Enroll { request } => StepView::Enroll { request: request@ },
            Step::TakeSlot => StepView::TakeSlot,
            Step::Authenticate { username, password } => StepView::Authenticate {
                username: username@,
                password: password@,
            },
            Step::DrawNonce => StepView::DrawNonce,
            Step::ReadClock => StepView::ReadClock,
            Step::EncodePayload { payload } => StepView::EncodePayload { payload: payload@ },
            Step::StampPayload { payload_json } => StepView::StampPayload {
                payload_json: payload_json@,
            },
            Step::Record { decision } => StepView::Record { decision: decision@ },
            Step::ListRevocations => StepView::ListRevocations,
            Step::Revoke { plan } => StepView::Revoke {
                delete: plan.delete@.map_values(|id: String| id@),
                nonce: plan.put.id@,
                exp_unix: plan.put.exp_unix,
            },
            Step::InvalidateStamp { payload_bytes } => StepView::InvalidateStamp {
                payload_bytes: payload_bytes@,
            },
            Step::ListBoard { states } => StepView::ListBoard { states: states_view(states) },
            Step::FetchTask { id } => StepView::FetchTask { id },
            Step::CreateTask { task } => StepView::CreateTask { task: task@ },
            Step::TransitionTask { id, transition } => StepView::TransitionTask {
                id,
                transition: transition@,
            },
            Step::ClaimTask { id, actor } => StepView::ClaimTask { id, actor: actor@ },
            Step::BlockTask { id, block } => StepView::BlockTask { id, block: block@ },
            Step::RenderConfig => StepView::RenderConfig,
            Step::ParseConfig { text } => StepView::ParseConfig { text: text@ },
            Step::ValidateConfig => StepView::ValidateConfig,
            Step::SaveConfig => StepView::SaveConfig,
            Step::ReadPlugins => StepView::ReadPlugins,
            Step::ReadLogs => StepView::ReadLogs,
            Step::ReadAudit => StepView::ReadAudit,
            Step::Answer { answer } => StepView::Answer { answer: answer@ },
        }
    }
}

/// How a step ended.
#[allow(inconsistent_fields)]
#[derive(Debug)]
pub enum Outcome {
    /// How the check of the credentials ended.
    Authenticated { outcome: Authentication },
    /// Sixteen random bytes.
    Random { bytes: [u8; 16] },
    /// The time, zero for a clock set before the epoch.
    Clock { now: i64 },
    /// The encoded payload.
    Encoded { payload_json: Vec<u8> },
    /// The stamp over the encoded payload.
    Stamped { stamp: Stamp },
    /// The step is done.
    Done,
    /// The denylist, or `None` if it could not be listed.
    Revocations { records: Option<Vec<RevocationRecord>> },
    /// Whether the component did what it was asked.
    Accepted { accepted: bool },
    /// The state of each listed task, or `None` if they could not be listed.
    Listed { states: Option<Vec<TaskState>> },
    /// The new task's id, or `None` if it was not created.
    Created { id: Option<u128> },
    /// The configured plugins, or `None` if the configuration did not load.
    PluginsRead { plugins: Option<Vec<PluginManifest>> },
    /// How reading the configuration ended.
    ConfigRead { read: ConfigRead },
    /// Why the configuration is refused, if it is.
    Checked { refusal: Option<String> },
    /// How reading the call log ended.
    LogRead { read: LogRead },
    /// Whether the audit chain verifies.
    Chain { verified: bool },
}

/// Where a machine stands: what it last asked for, and what it keeps.
#[derive(Debug)]
pub enum Progress {
    Enrolling,
    TakingSlot { username: String, password: String },
    Authenticating,
    DrawingNonce { user: User },
    TimingSession { user: User, nonce: String },
    EncodingSession { user_id: String, exp_unix: i64 },
    StampingSession { user_id: String, exp_unix: i64, payload_json: Vec<u8> },
    Recording { answer: Answer },
    TimingRevocation { session: EndedSession },
    ListingRevocations { session: EndedSession, now: i64 },
    StoringRevocation { payload_bytes: Vec<u8> },
    InvalidatingStamp,
    ListingBoard,
    FetchingTask,
    CreatingTask,
    TransitioningTask,
    ClaimingTask,
    BlockingTask,
    RenderingConfig,
    ParsingConfig,
    ValidatingConfig,
    SavingConfig,
    ReadingPlugins,
    ReadingLogs,
    ReadingAudit,
    Finished,
}

/// A machine as contracts see it.
pub enum ProgressView {
    Enrolling,
    TakingSlot { username: Seq<char>, password: Seq<char> },
    Authenticating,
    DrawingNonce { user: UserView },
    TimingSession { user: UserView, nonce: Seq<char> },
    EncodingSession { user_id: Seq<char>, exp_unix: i64 },
    StampingSession { user_id: Seq<char>, exp_unix: i64, payload_json: Seq<u8> },
    Recording { answer: AnswerView },
    TimingRevocation { session: EndedSessionView },
    ListingRevocations { session: EndedSessionView, now: i64 },
    StoringRevocation { payload_bytes: Seq<u8> },
    InvalidatingStamp,
    ListingBoard,
    FetchingTask,
    CreatingTask,
    TransitioningTask,
    ClaimingTask,
    BlockingTask,
    RenderingConfig,
    ParsingConfig,
    ValidatingConfig,
    SavingConfig,
    ReadingPlugins,
    ReadingLogs,
    ReadingAudit,
    Finished,
}

impl View for Progress {
    type V = ProgressView;

    open spec fn view(&self) -> ProgressView {
        match *self {
            Progress::Enrolling => ProgressView::Enrolling,
            Progress::TakingSlot { username, password } => ProgressView::TakingSlot {
                username: username@,
                password: password@,
            },
            Progress::Authenticating => ProgressView::Authenticating,
            Progress::DrawingNonce { user } => ProgressView::DrawingNonce { user: user@ },
            Progress::TimingSession { user, nonce } => ProgressView::TimingSession {
                user: user@,
                nonce: nonce@,
            },
            Progress::EncodingSession { user_id, exp_unix } => ProgressView::EncodingSession {
                user_id: user_id@,
                exp_unix,
            },
            Progress::StampingSession { user_id, exp_unix, payload_json } => {
                ProgressView::StampingSession {
                    user_id: user_id@,
                    exp_unix,
                    payload_json: payload_json@,
                }
            },
            Progress::Recording { answer } => ProgressView::Recording { answer: answer@ },
            Progress::TimingRevocation { session } => ProgressView::TimingRevocation {
                session: session@,
            },
            Progress::ListingRevocations { session, now } => ProgressView::ListingRevocations {
                session: session@,
                now,
            },
            Progress::StoringRevocation { payload_bytes } => ProgressView::StoringRevocation {
                payload_bytes: payload_bytes@,
            },
            Progress::InvalidatingStamp => ProgressView::InvalidatingStamp,
            Progress::ListingBoard => ProgressView::ListingBoard,
            Progress::FetchingTask => ProgressView::FetchingTask,
            Progress::CreatingTask => ProgressView::CreatingTask,
            Progress::TransitioningTask => ProgressView::TransitioningTask,
            Progress::ClaimingTask => ProgressView::ClaimingTask,
            Progress::BlockingTask => ProgressView::BlockingTask,
            Progress::RenderingConfig => ProgressView::RenderingConfig,
            Progress::ParsingConfig => ProgressView::ParsingConfig,
            Progress::ValidatingConfig => ProgressView::ValidatingConfig,
            Progress::SavingConfig => ProgressView::SavingConfig,
            Progress::ReadingPlugins => ProgressView::ReadingPlugins,
            Progress::ReadingLogs => ProgressView::ReadingLogs,
            Progress::ReadingAudit => ProgressView::ReadingAudit,
            Progress::Finished => ProgressView::Finished,
        }
    }
}

/// A machine and the step it asks for.
pub struct Move {
    pub progress: ProgressView,
    pub step: StepView,
}

/// The move that answers.
pub open spec fn answered(answer: AnswerView) -> Move {
    Move { progress: ProgressView::Finished, step: StepView::Answer { answer } }
}

/// The move that records a decision and then answers.
pub open spec fn recorded(decision: DecisionView, answer: AnswerView) -> Move {
    Move { progress: ProgressView::Recording { answer }, step: StepView::Record { decision } }
}

/// The move that asks something of the task that a path names.
pub open spec fn on_task(
    raw: Seq<char>,
    progress: ProgressView,
    step: spec_fn(u128) -> StepView,
) -> Move {
    match task_named(uuid_bits(raw)) {
        Ok(id) => Move { progress, step: step(id) },
        Err(answer) => answered(answer),
    }
}

/// The first move of a call.
pub open spec fn beginning(call: Call, context: AuthContextView) -> Move {
    match call {
        Call::Enroll { body } => match enrollment(body, base64_bytes(body.public_key_b64@)) {
            Ok(request) => Move {
                progress: ProgressView::Enrolling,
                step: StepView::Enroll { request },
            },
            Err(answer) => answered(answer),
        },
        Call::Login { body } => Move {
            progress: ProgressView::TakingSlot {
                username: body.username@,
                password: body.password@,
            },
            step: StepView::TakeSlot,
        },
        Call::Logout => match ended_session(context) {
            Ok(session) => Move {
                progress: ProgressView::TimingRevocation { session },
                step: StepView::ReadClock,
            },
            Err(answer) => answered(answer),
        },
        Call::Board { params } => match board_query(params) {
            Ok(states) => Move {
                progress: ProgressView::ListingBoard,
                step: StepView::ListBoard { states },
            },
            Err(answer) => answered(answer),
        },
        Call::GetTask { id } => on_task(
            id@,
            ProgressView::FetchingTask,
            |id: u128| StepView::FetchTask { id },
        ),
        Call::CreateTask { body } => Move {
            progress: ProgressView::CreatingTask,
            step: StepView::CreateTask { task: new_task(context, body) },
        },
        Call::TransitionTask { id, body } => on_task(
            id@,
            ProgressView::TransitioningTask,
            |id: u128| StepView::TransitionTask { id, transition: transition(context, body) },
        ),
        Call::ClaimTask { id } => on_task(
            id@,
            ProgressView::ClaimingTask,
            |id: u128| StepView::ClaimTask { id, actor: actor(context) },
        ),
        Call::BlockTask { id, body } => on_task(
            id@,
            ProgressView::BlockingTask,
            |id: u128| StepView::BlockTask { id, block: block(context, body) },
        ),
        Call::GetConfig => Move {
            progress: ProgressView::RenderingConfig,
            step: StepView::RenderConfig,
        },
        Call::PutConfig { text } => Move {
            progress: ProgressView::ParsingConfig,
            step: StepView::ParseConfig { text: text@ },
        },
        Call::Plugins => Move {
            progress: ProgressView::ReadingPlugins,
            step: StepView::ReadPlugins,
        },
        Call::Logs => Move { progress: ProgressView::ReadingLogs, step: StepView::ReadLogs },
        Call::Audit => Move { progress: ProgressView::ReadingAudit, step: StepView::ReadAudit },
    }
}

/// Whether an outcome is one of the step that the machine asked for. A login
/// needs a time whose session expiry can be written, and a payload whose token
/// can be held.
pub open spec fn awaits(progress: ProgressView, outcome: Outcome) -> bool {
    match progress {
        ProgressView::TakingSlot { .. } => outcome is Done,
        ProgressView::Authenticating => outcome is Authenticated,
        ProgressView::DrawingNonce { .. } => outcome is Random,
        ProgressView::TimingSession { .. } => outcome matches Outcome::Clock { now } && now
            + SESSION_TTL_SECS <= i64::MAX,
        ProgressView::EncodingSession { .. } => outcome matches Outcome::Encoded { payload_json }
            && base64_len(payload_json@.len()) <= isize::MAX,
        ProgressView::StampingSession { payload_json, .. } => outcome is Stamped && base64_len(
            payload_json.len(),
        ) <= isize::MAX,
        ProgressView::Recording { .. } => outcome is Done,
        ProgressView::TimingRevocation { .. } => outcome is Clock,
        ProgressView::ListingRevocations { .. } => outcome is Revocations,
        ProgressView::InvalidatingStamp => outcome is Done,
        ProgressView::ListingBoard => outcome is Listed,
        ProgressView::CreatingTask => outcome is Created,
        ProgressView::RenderingConfig => outcome is ConfigRead,
        ProgressView::ParsingConfig => outcome is Checked,
        ProgressView::ValidatingConfig => outcome is Checked,
        ProgressView::ReadingPlugins => outcome is PluginsRead,
        ProgressView::ReadingLogs => outcome is LogRead,
        ProgressView::ReadingAudit => outcome is Chain,
        ProgressView::Finished => false,
        _ => outcome is Accepted,
    }
}

/// The move once credentials are checked.
pub open spec fn after_authentication(outcome: Authentication) -> Move {
    match outcome {
        Authentication::Accepted { user } => Move {
            progress: ProgressView::DrawingNonce { user: user@ },
            step: StepView::DrawNonce,
        },
        Authentication::Refused => recorded(login_failure(), login_refusal()),
        Authentication::Failed => answered(
            error_answer(Status::InternalServerError, "auth task failed"@),
        ),
    }
}

/// The ids that a logout deletes from the denylist.
pub open spec fn deletions(records: Option<Vec<RevocationRecord>>, now: i64) -> Seq<Seq<char>> {
    match records {
        Some(records) => prunable_ids(records@, now),
        None => Seq::empty(),
    }
}

/// The move once a submitted configuration is checked.
pub open spec fn after_check(check: ConfigCheck, refusal: Option<String>, passed: Move) -> Move {
    match refusal {
        Some(detail) => recorded(config_record(check, detail@), config_refusal()),
        None => passed,
    }
}

/// The next move.
pub open spec fn following(progress: ProgressView, outcome: Outcome) -> Move
    recommends
        awaits(progress, outcome),
{
    match (progress, outcome) {
        (ProgressView::Enrolling, Outcome::Accepted { accepted }) => answered(
            enroll_answer(accepted),
        ),
        (ProgressView::TakingSlot { username, password }, Outcome::Done) => Move {
            progress: ProgressView::Authenticating,
            step: StepView::Authenticate { username, password },
        },
        (ProgressView::Authenticating, Outcome::Authenticated { outcome }) => after_authentication(
            outcome,
        ),
        (ProgressView::DrawingNonce { user }, Outcome::Random { bytes }) => Move {
            progress: ProgressView::TimingSession { user, nonce: base64_url_text(bytes@) },
            step: StepView::ReadClock,
        },
        (ProgressView::TimingSession { user, nonce }, Outcome::Clock { now }) => Move {
            progress: ProgressView::EncodingSession {
                user_id: user.id,
                exp_unix: new_session(user, nonce, now).exp_unix,
            },
            step: StepView::EncodePayload { payload: new_session(user, nonce, now) },
        },
        (
            ProgressView::EncodingSession { user_id, exp_unix },
            Outcome::Encoded { payload_json },
        ) => Move {
            progress: ProgressView::StampingSession {
                user_id,
                exp_unix,
                payload_json: payload_json@,
            },
            step: StepView::StampPayload { payload_json: payload_json@ },
        },
        (
            ProgressView::StampingSession { user_id, exp_unix, payload_json },
            Outcome::Stamped { stamp },
        ) => recorded(
            login_record(user_id),
            login_answer(token_text(payload_json, stamp.0@), exp_unix),
        ),
        (ProgressView::Recording { answer }, Outcome::Done) => answered(answer),
        (ProgressView::TimingRevocation { session }, Outcome::Clock { now }) => Move {
            progress: ProgressView::ListingRevocations { session, now },
            step: StepView::ListRevocations,
        },
        (
            ProgressView::ListingRevocations { session, now },
            Outcome::Revocations { records },
        ) => Move {
            progress: ProgressView::StoringRevocation { payload_bytes: session.payload_bytes },
            step: StepView::Revoke {
                delete: deletions(records, now),
                nonce: session.nonce,
                exp_unix: Some(session.exp_unix),
            },
        },
        (ProgressView::StoringRevocation { payload_bytes }, Outcome::Accepted { accepted }) => {
            if accepted {
                Move {
                    progress: ProgressView::InvalidatingStamp,
                    step: StepView::InvalidateStamp { payload_bytes },
                }
            } else {
                answered(revocation_failed())
            }
        },
        (ProgressView::InvalidatingStamp, Outcome::Done) => answered(
            success_answer(BodyView::Acknowledged),
        ),
        (ProgressView::ListingBoard, Outcome::Listed { states }) => answered(
            board_answer(states_view(states)),
        ),
        (ProgressView::FetchingTask, Outcome::Accepted { accepted }) => answered(
            task_answer(accepted),
        ),
        (ProgressView::CreatingTask, Outcome::Created { id }) => answered(creation_answer(id)),
        (ProgressView::TransitioningTask, Outcome::Accepted { accepted }) => answered(
            transition_answer(accepted),
        ),
        (ProgressView::ClaimingTask, Outcome::Accepted { accepted }) => answered(
            claim_answer(accepted),
        ),
        (ProgressView::BlockingTask, Outcome::Accepted { accepted }) => answered(
            block_answer(accepted),
        ),
        (ProgressView::RenderingConfig, Outcome::ConfigRead { read }) => answered(
            config_answer(read),
        ),
        (ProgressView::ParsingConfig, Outcome::Checked { refusal }) => after_check(
            ConfigCheck::Parse,
            refusal,
            Move { progress: ProgressView::ValidatingConfig, step: StepView::ValidateConfig },
        ),
        (ProgressView::ValidatingConfig, Outcome::Checked { refusal }) => after_check(
            ConfigCheck::Validation,
            refusal,
            Move { progress: ProgressView::SavingConfig, step: StepView::SaveConfig },
        ),
        (ProgressView::SavingConfig, Outcome::Accepted { accepted }) => answered(
            save_answer(accepted),
        ),
        (ProgressView::ReadingPlugins, Outcome::PluginsRead { plugins }) => answered(
            plugins_answer(plugins_view(plugins)),
        ),
        (ProgressView::ReadingLogs, Outcome::LogRead { read }) => answered(logs_answer(read)),
        (ProgressView::ReadingAudit, Outcome::Chain { verified }) => answered(
            success_answer(BodyView::Audit { chain_verified: verified }),
        ),
        _ => answered(error_answer(Status::InternalServerError, "internal error"@)),
    }
}

fn finish(answer: Answer) -> (next: (Progress, Step))
    ensures
        next.0@ == ProgressView::Finished,
        next.1@ == (StepView::Answer { answer: answer@ }),
{
    (Progress::Finished, Step::Answer { answer })
}

fn record(end: (Decision, Answer)) -> (next: (Progress, Step))
    ensures
        (Move { progress: next.0@, step: next.1@ }) == recorded(end.0@, end.1@),
{
    (Progress::Recording { answer: end.1 }, Step::Record { decision: end.0 })
}

/// Opens the machine for a call by this identity.
pub fn begin(call: Call, context: AuthContext) -> (next: (Progress, Step))
    ensures
        (Move { progress: next.0@, step: next.1@ }) == beginning(call, context@),
{
    match call {
        Call::Enroll { body } => match enroll(body) {
            Ok(request) => (Progress::Enrolling, Step::Enroll { request }),
            Err(answer) => finish(answer),
        },
        Call::Login { body } => (
            Progress::TakingSlot { username: body.username, password: body.password },
            Step::TakeSlot,
        ),
        Call::Logout => match logout(context) {
            Ok(session) => (Progress::TimingRevocation { session }, Step::ReadClock),
            Err(answer) => finish(answer),
        },
        Call::Board { params } => match board(&params) {
            Ok(states) => (Progress::ListingBoard, Step::ListBoard { states }),
            Err(answer) => finish(answer),
        },
        Call::GetTask { id } => match task_id(id.as_str()) {
            Ok(id) => (Progress::FetchingTask, Step::FetchTask { id }),
            Err(answer) => finish(answer),
        },
        Call::CreateTask { body } => (
            Progress::CreatingTask,
            Step::CreateTask { task: create_task(&context, body) },
        ),
        Call::TransitionTask { id, body } => match task_id(id.as_str()) {
            Ok(id) => (
                Progress::TransitioningTask,
                Step::TransitionTask { id, transition: transition_task(&context, body) },
            ),
            Err(answer) => finish(answer),
        },
        Call::ClaimTask { id } => match task_id(id.as_str()) {
            Ok(id) => (Progress::ClaimingTask, Step::ClaimTask { id, actor: actor_of(&context) }),
            Err(answer) => finish(answer),
        },
        Call::BlockTask { id, body } => match task_id(id.as_str()) {
            Ok(id) => (
                Progress::BlockingTask,
                Step::BlockTask { id, block: block_task(&context, body) },
            ),
            Err(answer) => finish(answer),
        },
        Call::GetConfig => (Progress::RenderingConfig, Step::RenderConfig),
        Call::PutConfig { text } => (Progress::ParsingConfig, Step::ParseConfig { text }),
        Call::Plugins => (Progress::ReadingPlugins, Step::ReadPlugins),
        Call::Logs => (Progress::ReadingLogs, Step::ReadLogs),
        Call::Audit => (Progress::ReadingAudit, Step::ReadAudit),
    }
}

impl Progress {
    /// Takes the outcome of the last step to the next one. The token that a
    /// login answers with parses back to the payload and the stamp it is made
    /// of.
    pub fn follow(self, outcome: Outcome) -> (next: (Progress, Step))
        requires
            awaits(self@, outcome),
        ensures
            (Move { progress: next.0@, step: next.1@ }) == following(self@, outcome),
            self@ matches ProgressView::StampingSession { payload_json, .. } ==> (
            outcome matches Outcome::Stamped { stamp } ==> token_parts(
                token_text(payload_json, stamp.0@),
            ) == Some((payload_json, stamp.0@))),
    {
        match (self, outcome) {
            (Progress::Enrolling, Outcome::Accepted { accepted }) => finish(enrolled(accepted)),
            (Progress::TakingSlot { username, password }, Outcome::Done) => (
                Progress::Authenticating,
                Step::Authenticate { username, password },
            ),
            (Progress::Authenticating, Outcome::Authenticated { outcome }) => match outcome {
                Authentication::Accepted { user } => (
                    Progress::DrawingNonce { user },
                    Step::DrawNonce,
                ),
                Authentication::Refused => record(login_refused()),
                Authentication::Failed => finish(
                    err(Status::InternalServerError, "auth task failed"),
                ),
            },
            (Progress::DrawingNonce { user }, Outcome::Random { bytes }) => (
                Progress::TimingSession { user, nonce: mint_nonce(&bytes) },
                Step::ReadClock,
            ),
            (Progress::TimingSession { user, nonce }, Outcome::Clock { now }) => {
                let payload = login(user, nonce, now);
                (
                    Progress::EncodingSession {
                        user_id: payload.user_id.clone(),
                        exp_unix: payload.exp_unix,
                    },
                    Step::EncodePayload { payload },
                )
            },
            (
                Progress::EncodingSession { user_id, exp_unix },
                Outcome::Encoded { payload_json },
            ) => {
                let copy = copy_bytes(&payload_json);
                (
                    Progress::StampingSession { user_id, exp_unix, payload_json },
                    Step::StampPayload { payload_json: copy },
                )
            },
            (
                Progress::StampingSession { user_id, exp_unix, payload_json },
                Outcome::Stamped { stamp },
            ) => {
                let token = mint(payload_json.as_slice(), &stamp);
                record(logged_in(user_id.as_str(), token, exp_unix))
            },
            (Progress::Recording { answer }, Outcome::Done) => finish(answer),
            (Progress::TimingRevocation { session }, Outcome::Clock { now }) => (
                Progress::ListingRevocations { session, now },
                Step::ListRevocations,
            ),
            (
                Progress::ListingRevocations { session, now },
                Outcome::Revocations { records },
            ) => {
                let plan = match &records {
                    Some(records) => revoke(
                        session.nonce.as_str(),
                        session.exp_unix,
                        Some(records),
                        now,
                    ),
                    None => revoke(session.nonce.as_str(), session.exp_unix, None, now),
                };
                (
                    Progress::StoringRevocation { payload_bytes: session.payload_bytes },
                    Step::Revoke { plan },
                )
            },
            (Progress::StoringRevocation { payload_bytes }, Outcome::Accepted { accepted }) => {
                if accepted {
                    (Progress::InvalidatingStamp, Step::InvalidateStamp { payload_bytes })
                } else {
                    finish(err(Status::InternalServerError, "revocation failed"))
                }
            },
            (Progress::InvalidatingStamp, Outcome::Done) => finish(acknowledged()),
            (Progress::ListingBoard, Outcome::Listed { states }) => finish(board_listed(states)),
            (Progress::FetchingTask, Outcome::Accepted { accepted }) => finish(get_task(accepted)),
            (Progress::CreatingTask, Outcome::Created { id }) => finish(task_created(id)),
            (Progress::TransitioningTask, Outcome::Accepted { accepted }) => finish(
                accepted_or(accepted, Status::BadRequest, "transition rejected"),
            ),
            (Progress::ClaimingTask, Outcome::Accepted { accepted }) => finish(
                accepted_or(accepted, Status::Conflict, "claim rejected"),
            ),
            (Progress::BlockingTask, Outcome::Accepted { accepted }) => finish(
                accepted_or(accepted, Status::BadRequest, "block rejected"),
            ),
            (Progress::RenderingConfig, Outcome::ConfigRead { read }) => finish(get_config(read)),
            (Progress::ParsingConfig, Outcome::Checked { refusal }) => match refusal {
                Some(detail) => record(put_config(ConfigCheck::Parse, detail.as_str())),
                None => (Progress::ValidatingConfig, Step::ValidateConfig),
            },
            (Progress::ValidatingConfig, Outcome::Checked { refusal }) => match refusal {
                Some(detail) => record(put_config(ConfigCheck::Validation, detail.as_str())),
                None => (Progress::SavingConfig, Step::SaveConfig),
            },
            (Progress::SavingConfig, Outcome::Accepted { accepted }) => finish(
                accepted_or(accepted, Status::InternalServerError, "config save failed"),
            ),
            (Progress::ReadingPlugins, Outcome::PluginsRead { plugins: configured }) => finish(
                plugins(configured),
            ),
            (Progress::ReadingLogs, Outcome::LogRead { read }) => finish(logs(read)),
            (Progress::ReadingAudit, Outcome::Chain { verified }) => finish(audit(verified)),
            _ => finish(err(Status::InternalServerError, "internal error")),
        }
    }
}

} // verus!
