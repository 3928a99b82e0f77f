//! Contracts see values whole: what a contract says of a view, it says of the
//! value behind it, field by field.

use vstd::prelude::*;
use vstd::utf8::*;

use crate::auth::{AuthContext, PresentedClientAuth, RequestHead};
use crate::boot::{BootStep, BootStepView};
use crate::config::{ConfigDocument, PluginManifest};
use crate::enforcement::{Action, ActionView, Event, EventView};
use crate::handlers::{Block, EndedSession, EnrollmentRequest, NewTask, Transition};
use crate::headers::{header_views, HeaderEntry};
use crate::kanban::{query_view, states_view, Column, TaskState};
use crate::operations::{Step, StepView};
use crate::reply::{Answer, Body, BodyView, Decision, Rejection};
use crate::routes::{table_view, RouteSpec};
use crate::service::{Dispatch, DispatchView, Passage, PassageView};
use crate::session::SessionPayload;
use crate::startup::{CorsPolicy, ResponseHeader};
use crate::users::User;

verus! {

/// Whether an optional string is seen as this.
pub open spec fn seen_text(text: Option<String>, seen: Option<Seq<char>>) -> bool {
    match text {
        Some(text) => seen == Some(text@),
        None => seen is None,
    }
}

/// Whether strings are seen as these, one for one.
pub open spec fn seen_texts(strings: Seq<String>, seen: Seq<Seq<char>>) -> bool {
    strings.len() == seen.len() && forall|i: int|
        0 <= i < seen.len() ==> #[trigger] seen[i] == strings[i]@
}

/// Whether literals are seen as these, one for one.
pub open spec fn seen_literals(strings: Seq<&'static str>, seen: Seq<Seq<char>>) -> bool {
    strings.len() == seen.len() && forall|i: int|
        0 <= i < seen.len() ==> #[trigger] seen[i] == strings[i]@
}

/// Headers are seen as they are, one for one.
pub proof fn headers_are_seen_whole(headers: Seq<HeaderEntry>, i: int)
    requires
        0 <= i < headers.len(),
    ensures
        header_views(headers).len() == headers.len(),
        header_views(headers)[i].name == headers[i].name@,
        header_views(headers)[i].value == headers[i].value@,
{
}

/// A request head is seen as it is.
pub proof fn heads_are_seen_whole(head: RequestHead)
    ensures
        head@.method == head.method@,
        head@.path == head.path@,
        head@.headers == header_views(head.headers@),
        seen_text(head.peer, head@.peer),
{
}

/// What a client presents is seen as it is.
pub proof fn presentations_are_seen_whole(presented: PresentedClientAuth)
    ensures
        presented@.client_id == presented.client_id@,
        presented@.canonical_request == presented.canonical_request@,
        presented@.signature == presented.signature@,
        presented@.timestamp == presented.timestamp,
        presented@.nonce == presented.nonce@,
{
}

/// A user is seen as it is.
pub proof fn users_are_seen_whole(user: User)
    ensures
        user@.id == user.id@,
        user@.roles == user.roles@,
        user@.active == user.active,
{
}

/// A session payload is seen as it is.
pub proof fn payloads_are_seen_whole(payload: SessionPayload)
    ensures
        payload@.user_id == payload.user_id@,
        payload@.roles == payload.roles@,
        payload@.exp_unix == payload.exp_unix,
        payload@.nonce == payload.nonce@,
{
}

/// An identity is seen as it is.
pub proof fn identities_are_seen_whole(context: AuthContext)
    ensures
        context@.client_id == context.client_id@,
        match context.user {
            Some(user) => context@.user == Some(user@),
            None => context@.user is None,
        },
        match context.session {
            Some(session) => context@.session == Some(session@),
            None => context@.session is None,
        },
        match context.session_bytes {
            Some(bytes) => context@.session_bytes == Some(bytes@),
            None => context@.session_bytes is None,
        },
{
}

/// What the middleware asks for is seen as it is.
pub proof fn actions_are_seen_whole(action: Action)
    ensures
        match action {
            Action::SpendToken { key } => action@ == (ActionView::SpendToken { key: key@ }),
            Action::ReadBody { limit } => action@ == (ActionView::ReadBody { limit }),
            Action::VerifyClient { presented } => action@ == (ActionView::VerifyClient {
                presented: presented@,
            }),
            Action::StampRequest { canonical } => action@ == (ActionView::StampRequest {
                canonical: canonical@,
            }),
            Action::DecodePayload { payload } => action@ == (ActionView::DecodePayload {
                payload: payload@,
            }),
            Action::ReadClock => action@ == ActionView::ReadClock,
            Action::CheckStamp { stamp, payload } => action@ == (ActionView::CheckStamp {
                stamp: stamp.0@,
                payload: payload@,
            }),
            Action::LookUpRevocation { nonce } => action@ == (ActionView::LookUpRevocation {
                nonce: nonce@,
            }),
            Action::FetchUser { user_id } => action@ == (ActionView::FetchUser {
                user_id: user_id@,
            }),
            Action::Record { decision } => action@ == (ActionView::Record {
                decision: decision@,
            }),
            Action::Admit { context } => action@ == (ActionView::Admit { context: context@ }),
            Action::Reject { rejection } => action@ == (ActionView::Reject {
                rejection: rejection@,
            }),
        },
{
}

/// What the outside answers the middleware is seen as it is.
pub proof fn events_are_seen_whole(event: Event)
    ensures
        match event {
            Event::TokenSpent { allowed } => event@ == (EventView::TokenSpent { allowed }),
            Event::Body { body } => event@ matches EventView::Body { body: seen } && match body {
                Some(bytes) => seen == Some(bytes@),
                None => seen is None,
            },
            Event::Client { client_id } => event@ matches EventView::Client { client_id: seen }
                && seen_text(client_id, seen),
            Event::Done => event@ == EventView::Done,
            Event::Payload { payload } => event@ matches EventView::Payload { payload: seen }
                && match payload {
                Some(payload) => seen == Some(payload@),
                None => seen is None,
            },
            Event::Clock { now } => event@ == (EventView::Clock { now }),
            Event::StampValid { valid } => event@ == (EventView::StampValid { valid }),
            Event::Revocation { status } => event@ == (EventView::Revocation { status }),
            Event::Fetched { user } => event@ matches EventView::Fetched { user: seen }
                && match user {
                Some(user) => seen == Some(user@),
                None => seen is None,
            },
        },
{
}

/// A refusal is seen as it is, and so is a decision to record.
pub proof fn decisions_are_seen_whole(rejection: Rejection, decision: Decision)
    ensures
        rejection@.status == rejection.status,
        rejection@.message == rejection.message@,
        decision@.allowed == decision.allowed,
        decision@.detail == decision.detail@,
{
}

/// What the board, the directory and the scheme are asked for is seen as it is.
pub proof fn requests_to_components_are_seen_whole(
    enrollment: EnrollmentRequest,
    task: NewTask,
    transition: Transition,
    block: Block,
    session: EndedSession,
)
    ensures
        enrollment@.api_key == enrollment.api_key@,
        enrollment@.client_name == enrollment.client_name@,
        enrollment@.public_key == enrollment.public_key@,
        task@.title == task.title@,
        task@.actor == task.actor@,
        task@.depends_on == task.depends_on@,
        transition@.to == transition.to,
        transition@.actor == transition.actor@,
        seen_text(transition.reason, transition@.reason),
        block@.actor == block.actor@,
        block@.reason == block.reason@,
        block@.blocked_by == block.blocked_by@,
        session@.nonce == session.nonce@,
        session@.exp_unix == session.exp_unix,
        session@.payload_bytes == session.payload_bytes@,
{
}

/// Optional states, and a query for them, are seen as they are.
pub proof fn filters_are_seen_whole(states: Option<Vec<TaskState>>, query: Option<&str>)
    ensures
        match states {
            Some(states) => states_view(Some(states)) == Some(states@),
            None => states_view(None) is None,
        },
        match query {
            Some(text) => query_view(query) == Some(text@),
            None => query_view(query) is None,
        },
{
}

/// What an operation asks for is seen as it is.
pub proof fn steps_are_seen_whole(step: Step)
    ensures
        match step {
            Step::Enroll { request } => step@ == (StepView::Enroll { request: request@ }),
            Step::TakeSlot => step@ == StepView::TakeSlot,
            Step::Authenticate { username, password } => step@ == (StepView::Authenticate {
                username: username@,
                password: password@,
            }),
            Step::DrawNonce => step@ == StepView::DrawNonce,
            Step::ReadClock => step@ == StepView::ReadClock,
            Step::EncodePayload { payload } => step@ == (StepView::EncodePayload {
                payload: payload@,
            }),
            Step::StampPayload { payload_json } => step@ == (StepView::StampPayload {
                payload_json: payload_json@,
            }),
            Step::Record { decision } => step@ == (StepView::Record { decision: decision@ }),
            Step::ListRevocations => step@ == StepView::ListRevocations,
            Step::Revoke { plan } => step@ matches StepView::Revoke { delete, nonce, exp_unix }
                && seen_texts(plan.delete@, delete) && nonce == plan.put.id@ && exp_unix
                == plan.put.exp_unix,
            Step::InvalidateStamp { payload_bytes } => step@ == (StepView::InvalidateStamp {
                payload_bytes: payload_bytes@,
            }),
            Step::ListBoard { states } => step@ matches StepView::ListBoard { states: seen }
                && match states {
                Some(states) => seen == Some(states@),
                None => seen is None,
            },
            Step::FetchTask { id } => step@ == (StepView::FetchTask { id }),
            Step::CreateTask { task } => step@ == (StepView::CreateTask { task: task@ }),
            Step::TransitionTask { id, transition } => step@ == (StepView::TransitionTask {
                id,
                transition: transition@,
            }),
            Step::ClaimTask { id, actor } => step@ == (StepView::ClaimTask { id, actor: actor@ }),
            Step::BlockTask { id, block } => step@ == (StepView::BlockTask { id, block: block@ }),
            Step::RenderConfig => step@ == StepView::RenderConfig,
            Step::ParseConfig { text } => step@ == (StepView::ParseConfig { text: text@ }),
            Step::ValidateConfig => step@ == StepView::ValidateConfig,
            Step::SaveConfig => step@ == StepView::SaveConfig,
            Step::ReadPlugins => step@ == StepView::ReadPlugins,
            Step::ReadLogs => step@ == StepView::ReadLogs,
            Step::ReadAudit => step@ == StepView::ReadAudit,
            Step::Answer { answer } => step@ == (StepView::Answer { answer: answer@ }),
        },
{
}

/// An answer is seen as it is.
pub proof fn answers_are_seen_whole(answer: Answer)
    ensures
        answer@.status == answer.status,
        match answer.body {
            Body::Error { message } => answer@.body == (BodyView::Error { message: message@ }),
            Body::Acknowledged => answer@.body == BodyView::Acknowledged,
            Body::Credential => answer@.body == BodyView::Credential,
            Body::Session { token, exp_unix } => answer@.body == (BodyView::Session {
                token: token@,
                exp_unix,
            }),
            Body::Columns { columns } => answer@.body matches BodyView::Columns { columns: seen }
                && seen.len() == columns@.len() && forall|i: int|
                0 <= i < seen.len() ==> #[trigger] seen[i] == columns@[i]@,
            Body::Task => answer@.body == BodyView::Task,
            Body::TaskId { id } => answer@.body == (BodyView::TaskId { id }),
            Body::Config { config } => answer@.body == (BodyView::Config { config: config@ }),
            Body::Plugins { plugins } => answer@.body matches BodyView::Plugins { plugins: seen }
                && seen.len() == plugins@.len() && forall|i: int|
                0 <= i < seen.len() ==> #[trigger] seen[i] == plugins@[i]@,
            Body::Logs => answer@.body == BodyView::Logs,
            Body::NoLogs => answer@.body == BodyView::NoLogs,
            Body::Audit { chain_verified } => answer@.body == (BodyView::Audit { chain_verified }),
        },
{
}

/// Columns, configurations and plugins are seen as they are.
pub proof fn bodies_are_seen_whole(
    column: Column,
    config: ConfigDocument,
    plugin: PluginManifest,
)
    ensures
        column@.state == column.state,
        column@.tasks == column.tasks@,
        config@.toml == config.toml@,
        seen_texts(config.security.file_read_prefixes@, config@.security.file_read_prefixes),
        seen_texts(config.security.file_write_prefixes@, config@.security.file_write_prefixes),
        seen_texts(config.security.network_allowlist@, config@.security.network_allowlist),
        config@.security.allow_shell == config.security.allow_shell,
        config@.security.allow_git == config.security.allow_git,
        plugin@.name == plugin.name@,
        plugin@.version == plugin.version@,
        plugin@.class == plugin.class@,
        plugin@.enabled == plugin.enabled,
        plugin@.capabilities == plugin.capabilities@,
{
}

/// Routes are seen as they are, one for one.
pub proof fn routes_are_seen_whole(table: Seq<RouteSpec>, i: int)
    requires
        0 <= i < table.len(),
    ensures
        table_view(table).len() == table.len(),
        table_view(table)[i].method == table[i].method@,
        table_view(table)[i].path == table[i].path@,
        table_view(table)[i].auth == table[i].auth,
        table_view(table)[i].handler == table[i].handler,
{
}

/// Where a request goes is seen as it is.
pub proof fn passages_are_seen_whole(dispatch: Dispatch, passage: Passage)
    ensures
        match dispatch {
            Dispatch::Found { route } => dispatch@ == (DispatchView::Found { route: route@ }),
            Dispatch::MethodNotAllowed { allowed } => dispatch@
                matches DispatchView::MethodNotAllowed { allowed: seen } && seen_literals(
                allowed@,
                seen,
            ),
            Dispatch::NotFound => dispatch@ == DispatchView::NotFound,
        },
        match passage {
            Passage::Asking { exchange, action } => passage@ == (PassageView::Asking {
                exchange: exchange@,
                action: action@,
            }),
            Passage::Admitted { pass } => passage@ == (PassageView::Admitted { pass: pass@ }),
            Passage::Refused { answer } => passage@ == (PassageView::Refused { answer: answer@ }),
        },
{
}

/// A policy, and a header of every response, are seen as they are.
pub proof fn policies_are_seen_whole(policy: CorsPolicy, header: ResponseHeader)
    ensures
        seen_texts(policy.origins@, policy@.origins),
        policy@.allow_credentials == policy.allow_credentials,
        seen_literals(policy.methods@, policy@.methods),
        seen_literals(policy.headers@, policy@.headers),
        header@.name == header.name@,
        header@.value == encode_utf8(header.value@),
{
}

/// What startup asks for is seen as it is.
pub proof fn boot_steps_are_seen_whole(step: BootStep)
    ensures
        match step {
            BootStep::ParseBind { bind } => step@ == (BootStepView::ParseBind { bind: bind@ }),
            BootStep::ReadKey => step@ == BootStepView::ReadKey,
            BootStep::DrawKey => step@ == BootStepView::DrawKey,
            BootStep::CreateKeyFile { bytes, mode } => step@ == (BootStepView::CreateKeyFile {
                bytes: bytes@,
                mode,
            }),
            BootStep::LoadPolicy => step@ == BootStepView::LoadPolicy,
            BootStep::OpenSecurity { key, deny_all, audit_file } => step@
                matches BootStepView::OpenSecurity {
                key: seen_key,
                deny_all: seen_denial,
                audit_file: seen_file,
            } && seen_key == key@ && seen_denial == deny_all && seen_text(audit_file, seen_file),
            BootStep::SelfCheck => step@ == BootStepView::SelfCheck,
            BootStep::VerifyChain => step@ == BootStepView::VerifyChain,
            BootStep::OpenStore => step@ == BootStepView::OpenStore,
            BootStep::IssueBootstrapKey => step@ == BootStepView::IssueBootstrapKey,
            BootStep::ReadAdminPassword => step@ == BootStepView::ReadAdminPassword,
            BootStep::CreateUser { username, password, roles } => step@ == (
            BootStepView::CreateUser {
                username: username@,
                password: password@,
                roles: roles@,
            }),
            BootStep::OpenPlugins => step@ == BootStepView::OpenPlugins,
            BootStep::EnsureCollection { collection } => step@
                matches BootStepView::EnsureCollection { name, indexed_fields } && name
                == collection.name@ && seen_texts(collection.indexed_fields@, indexed_fields),
            BootStep::Serve { routes, cors } => step@ == (BootStepView::Serve {
                routes: table_view(routes@),
                cors: cors@,
            }),
            BootStep::Exit { output } => step@ matches BootStepView::Exit { output: seen }
                && seen_text(output, seen),
            BootStep::Abort { message } => step@ == (BootStepView::Abort { message: message@ }),
        },
{
}

} // verus!
