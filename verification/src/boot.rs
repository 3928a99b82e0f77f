//! Startup as a machine.
//!
//! [`start`] opens it; each [`BootStep`] it asks for is answered by a
//! [`BootEvent`] that [`Boot::advance`] takes to the next step, until the
//! program serves, exits or aborts. The two provisioning modes write to the
//! store alone: they never touch the audit file, and a key that they have to
//! draw is not kept. Serving needs an audit file whose chain verifies.

use vstd::prelude::*;
use vstd::string::*;

use crate::auth::text_view;
use crate::routes::{
    all_routes, api_routes_can_be_mounted, build_router, route_table, table_view, RouteSpec,
    RouteView,
};
use crate::startup::{
    build_cors, cors_policy, decidable_origins, is_loopback, loopback, read_key, session_key,
    CorsPolicy, CorsView, IpAddress,
};
use crate::state::{ensure_collections, CollectionSpec, REVOKED_EXP_FIELD, REVOKED_SESSIONS};
use crate::text::texts;
use crate::users::Role;

verus! {

/// Permissions of the key file: its owner alone may read and write it (0600).
pub const KEY_FILE_MODE: u32 = 0o600;

/// The command line, as far as it decides anything.
#[derive(Debug)]
pub struct Options {
    pub bind: String,
    pub audit_file: Option<String>,
    pub cors_origins: Vec<String>,
    pub allow_remote_http: bool,
    pub issue_bootstrap_key: bool,
    pub create_admin: Option<String>,
}

/// Whether the program serves. Otherwise it provisions and exits.
pub open spec fn serves(options: Options) -> bool {
    !options.issue_bootstrap_key && options.create_admin is None
}

/// An address to bind: its IP, and how it is written.
#[derive(Debug)]
pub struct Bound {
    pub ip: IpAddress,
    pub text: String,
}

/// What the key file holds.
#[derive(Debug)]
pub enum KeyFile {
    Missing,
    Unreadable { detail: String },
    Present { bytes: Vec<u8> },
}

/// What the machine asks for next. The last three end it.
#[derive(Debug)]
pub enum BootStep {
    /// Parse the address to bind.
    ParseBind { bind: String },
    /// Read the key file.
    ReadKey,
    /// Draw thirty-two random bytes for a key.
    DrawKey,
    /// Create the key file, which must not exist by then, with these bytes and
    /// these permissions.
    CreateKeyFile { bytes: [u8; 32], mode: u32 },
    /// Load the security policy from the configuration.
    LoadPolicy,
    /// Open the security module, with the loaded policy or one that denies all.
    OpenSecurity { key: [u8; 32], deny_all: bool, audit_file: Option<String> },
    /// Have the security module check itself.
    SelfCheck,
    /// Verify the audit chain.
    VerifyChain,
    /// Open the store, the user directory and the client-auth scheme.
    OpenStore,
    /// Issue a single-use bootstrap key.
    IssueBootstrapKey,
    /// Read the new administrator's password.
    ReadAdminPassword,
    /// Create a user.
    CreateUser { username: String, password: String, roles: Vec<Role> },
    /// Open the board and the call log.
    OpenPlugins,
    /// Make sure that the store holds a collection.
    EnsureCollection { collection: CollectionSpec },
    /// Serve these routes under this policy.
    Serve { routes: Vec<RouteSpec>, cors: CorsPolicy },
    /// Print the output, if any, and exit.
    Exit { output: Option<String> },
    /// Exit with this error.
    Abort { message: String },
}

/// A step as contracts see it.
pub enum BootStepView {
    ParseBind { bind: Seq<char> },
    ReadKey,
    DrawKey,
    CreateKeyFile { bytes: Seq<u8>, mode: u32 },
    LoadPolicy,
    OpenSecurity { key: Seq<u8>, deny_all: bool, audit_file: Option<Seq<char>> },
    SelfCheck,
    VerifyChain,
    OpenStore,
    IssueBootstrapKey,
    ReadAdminPassword,
    CreateUser { username: Seq<char>, password: Seq<char>, roles: Seq<Role> },
    OpenPlugins,
    EnsureCollection { name: Seq<char>, indexed_fields: Seq<Seq<char>> },
    Serve { routes: Seq<RouteView>, cors: CorsView },
    Exit { output: Option<Seq<char>> },
    Abort { message: Seq<char> },
}

impl View for BootStep {
    type V = BootStepView;

    open spec fn view(&self) -> BootStepView {
        match *self {
            BootStep::ParseBind { bind } => BootStepView::ParseBind { bind: bind@ },
            BootStep::ReadKey => BootStepView::ReadKey,
            BootStep::DrawKey => BootStepView::DrawKey,
            BootStep::CreateKeyFile { bytes, mode } => BootStepView::CreateKeyFile {
                bytes: bytes@,
                mode,
            },
            BootStep::LoadPolicy => BootStepView::LoadPolicy,
            BootStep::OpenSecurity { key, deny_all, audit_file } => BootStepView::OpenSecurity {
                key: key@,
                deny_all,
                audit_file: text_view(audit_file),
            },
            BootStep::SelfCheck => BootStepView::SelfCheck,
            BootStep::VerifyChain => BootStepView::VerifyChain,
            BootStep::OpenStore => BootStepView::OpenStore,
            BootStep::IssueBootstrapKey => BootStepView::IssueBootstrapKey,
            BootStep::ReadAdminPassword => BootStepView::ReadAdminPassword,
            BootStep::CreateUser { username, password, roles } => BootStepView::CreateUser {
                username: username@,
                password: password@,
                roles: roles@,
            },
            BootStep::OpenPlugins => BootStepView::OpenPlugins,
            BootStep::EnsureCollection { collection } => BootStepView::EnsureCollection {
                name: collection.name@,
                indexed_fields: texts(collection.indexed_fields@),
            },
            BootStep::Serve { routes, cors } => BootStepView::Serve {
                routes: table_view(routes@),
                cors: cors@,
            },
            BootStep::Exit { output } => BootStepView::Exit { output: text_view(output) },
            BootStep::Abort { message } => BootStepView::Abort { message: message@ },
        }
    }
}

/// How a step ended.
#[allow(inconsistent_fields)]
#[derive(Debug)]
pub enum BootEvent {
    /// The address, or `None` if it does not parse.
    Address { address: Option<Bound> },
    /// What the key file holds.
    Key { file: KeyFile },
    /// The key that was drawn.
    Drawn { key: [u8; 32] },
    /// Whether the policy was loaded.
    Policy { loaded: bool },
    /// The bootstrap key that was issued.
    Issued { key: String },
    /// The password, or `None` if there is none.
    Password { password: Option<String> },
    /// The step is done.
    Done,
    /// The step failed.
    Failed { detail: String },
}

#[derive(Debug)]
enum BootStage {
    Binding,
    ReadingKey,
    DrawingKey,
    CreatingKeyFile { key: [u8; 32] },
    LoadingPolicy { key: [u8; 32] },
    OpeningSecurity,
    SelfChecking,
    VerifyingChain,
    OpeningStore,
    IssuingKey,
    ReadingPassword,
    CreatingUser,
    OpeningPlugins,
    EnsuringCollection,
    Finished,
}

/// Where the machine stands.
pub enum BootStageView {
    Binding,
    ReadingKey,
    DrawingKey,
    CreatingKeyFile { key: Seq<u8> },
    LoadingPolicy { key: Seq<u8> },
    OpeningSecurity,
    SelfChecking,
    VerifyingChain,
    OpeningStore,
    IssuingKey,
    ReadingPassword,
    CreatingUser,
    OpeningPlugins,
    EnsuringCollection,
    Finished,
}

impl View for BootStage {
    type V = BootStageView;

    closed spec fn view(&self) -> BootStageView {
        match *self {
            BootStage::Binding => BootStageView::Binding,
            BootStage::ReadingKey => BootStageView::ReadingKey,
            BootStage::DrawingKey => BootStageView::DrawingKey,
            BootStage::CreatingKeyFile { key } => BootStageView::CreatingKeyFile { key: key@ },
            BootStage::LoadingPolicy { key } => BootStageView::LoadingPolicy { key: key@ },
            BootStage::OpeningSecurity => BootStageView::OpeningSecurity,
            BootStage::SelfChecking => BootStageView::SelfChecking,
            BootStage::VerifyingChain => BootStageView::VerifyingChain,
            BootStage::OpeningStore => BootStageView::OpeningStore,
            BootStage::IssuingKey => BootStageView::IssuingKey,
            BootStage::ReadingPassword => BootStageView::ReadingPassword,
            BootStage::CreatingUser => BootStageView::CreatingUser,
            BootStage::OpeningPlugins => BootStageView::OpeningPlugins,
            BootStage::EnsuringCollection => BootStageView::EnsuringCollection,
            BootStage::Finished => BootStageView::Finished,
        }
    }
}

/// The machine for one start of the program.
#[derive(Debug)]
pub struct Boot {
    options: Options,
    stage: BootStage,
}

/// The machine as contracts see it.
pub struct BootView {
    pub options: Options,
    pub stage: BootStageView,
}

impl View for Boot {
    type V = BootView;

    closed spec fn view(&self) -> BootView {
        BootView { options: self.options, stage: self.stage@ }
    }
}

/// A stage and the step it asks for.
pub struct BootMove {
    pub stage: BootStageView,
    pub step: BootStepView,
}

/// The move that aborts.
pub open spec fn aborted(message: Seq<char>) -> BootMove {
    BootMove { stage: BootStageView::Finished, step: BootStepView::Abort { message } }
}

/// What is said of an address that does not parse.
pub open spec fn bad_bind(bind: Seq<char>) -> Seq<char> {
    "invalid --bind address '"@ + bind + "'"@
}

/// What is said of an address that is not loopback.
pub open spec fn remote_bind(address: Seq<char>) -> Seq<char> {
    "refusing to bind non-loopback address "@ + address
        + " over plain HTTP. Put a TLS-terminating reverse proxy in front and keep this on loopback, or pass --insecure-allow-remote-http to override (NOT recommended)."@
}

/// Every role: since none implies another, an administrator holds them all.
pub open spec fn admin_roles() -> Seq<Role> {
    seq![Role::Viewer, Role::Operator, Role::Admin]
}

/// The first move.
pub open spec fn first_move(options: Options) -> BootMove {
    BootMove {
        stage: BootStageView::Binding,
        step: BootStepView::ParseBind { bind: options.bind@ },
    }
}

/// Whether an event is one of the step that the machine asked for. Serving
/// needs origins that a policy can be decided for.
pub open spec fn foresees(options: Options, stage: BootStageView, event: BootEvent) -> bool {
    match stage {
        BootStageView::Binding => event is Address,
        BootStageView::ReadingKey => event is Key,
        BootStageView::DrawingKey => event is Drawn,
        BootStageView::LoadingPolicy { .. } => event is Policy,
        BootStageView::IssuingKey => event is Issued || event is Failed,
        BootStageView::ReadingPassword => event is Password && options.create_admin is Some,
        BootStageView::EnsuringCollection => (event is Done || event is Failed)
            && decidable_origins(texts(options.cors_origins@)),
        BootStageView::Finished => false,
        _ => event is Done || event is Failed,
    }
}

/// The move once the address is parsed: only loopback is bound, unless remote
/// HTTP is allowed.
pub open spec fn after_bind(options: Options, address: Option<Bound>) -> BootMove {
    match address {
        None => aborted(bad_bind(options.bind@)),
        Some(bound) => if !loopback(bound.ip) && !options.allow_remote_http {
            aborted(remote_bind(bound.text@))
        } else {
            BootMove { stage: BootStageView::ReadingKey, step: BootStepView::ReadKey }
        },
    }
}

/// The move once there is a key.
pub open spec fn with_key(key: Seq<u8>) -> BootMove {
    BootMove { stage: BootStageView::LoadingPolicy { key }, step: BootStepView::LoadPolicy }
}

/// The move once a key is drawn: to serve, it is kept in the key file.
/// Provisioning writes to the store alone, so it goes on with a key of its own.
pub open spec fn after_drawing(options: Options, key: Seq<u8>) -> BootMove {
    if serves(options) {
        BootMove {
            stage: BootStageView::CreatingKeyFile { key },
            step: BootStepView::CreateKeyFile { bytes: key, mode: KEY_FILE_MODE },
        }
    } else {
        with_key(key)
    }
}

/// What is said of a security module that does not open.
pub open spec fn unopened(options: Options, detail: Seq<char>) -> Seq<char> {
    if serves(options) {
        "audit file is mandatory and could not be opened: "@ + detail
    } else {
        "security module could not be opened: "@ + detail
    }
}

/// The move once the key file is read.
pub open spec fn after_key(file: KeyFile) -> BootMove {
    match file {
        KeyFile::Missing => BootMove {
            stage: BootStageView::DrawingKey,
            step: BootStepView::DrawKey,
        },
        KeyFile::Unreadable { detail } => aborted("reading session key file: "@ + detail@),
        KeyFile::Present { bytes } => match session_key(bytes@) {
            Ok(key) => with_key(key),
            Err(error) => aborted(error.spec_message()),
        },
    }
}

/// The move once the policy is loaded, or not: without one everything is
/// denied, and without an audit file nothing is served.
pub open spec fn after_policy(options: Options, key: Seq<u8>, loaded: bool) -> BootMove {
    if serves(options) && options.audit_file is None {
        aborted("--audit-file is required to serve"@)
    } else {
        BootMove {
            stage: BootStageView::OpeningSecurity,
            step: BootStepView::OpenSecurity {
                key,
                deny_all: !loaded,
                audit_file: if serves(options) {
                    text_view(options.audit_file)
                } else {
                    None
                },
            },
        }
    }
}

/// The move that opens the store.
pub open spec fn opening_store() -> BootMove {
    BootMove { stage: BootStageView::OpeningStore, step: BootStepView::OpenStore }
}

/// The move once the store is open: here the modes part.
pub open spec fn after_store(options: Options) -> BootMove {
    if options.issue_bootstrap_key {
        BootMove { stage: BootStageView::IssuingKey, step: BootStepView::IssueBootstrapKey }
    } else if options.create_admin is Some {
        BootMove { stage: BootStageView::ReadingPassword, step: BootStepView::ReadAdminPassword }
    } else {
        BootMove { stage: BootStageView::OpeningPlugins, step: BootStepView::OpenPlugins }
    }
}

/// The move that exits.
pub open spec fn exiting(output: Option<Seq<char>>) -> BootMove {
    BootMove { stage: BootStageView::Finished, step: BootStepView::Exit { output } }
}

/// The move once the password is read.
pub open spec fn after_password(options: Options, password: Option<String>) -> BootMove {
    match password {
        None => aborted("WYRTLOOM_ADMIN_PASSWORD must be set to create an administrator"@),
        Some(password) => BootMove {
            stage: BootStageView::CreatingUser,
            step: BootStepView::CreateUser {
                username: options.create_admin->0@,
                password: password@,
                roles: admin_roles(),
            },
        },
    }
}

/// The move once everything is open.
pub open spec fn serving(options: Options) -> BootMove {
    match cors_policy(texts(options.cors_origins@)) {
        Ok(cors) => BootMove {
            stage: BootStageView::Finished,
            step: BootStepView::Serve { routes: all_routes(), cors },
        },
        Err(message) => aborted(message),
    }
}

/// The next move.
pub open spec fn next_move(options: Options, stage: BootStageView, event: BootEvent) -> BootMove
    recommends
        foresees(options, stage, event),
{
    match (stage, event) {
        (BootStageView::Binding, BootEvent::Address { address }) => after_bind(options, address),
        (BootStageView::ReadingKey, BootEvent::Key { file }) => after_key(file),
        (BootStageView::DrawingKey, BootEvent::Drawn { key }) => after_drawing(options, key@),
        (BootStageView::CreatingKeyFile { key }, BootEvent::Done) => with_key(key),
        (BootStageView::CreatingKeyFile { .. }, BootEvent::Failed { detail }) => aborted(detail@),
        (BootStageView::LoadingPolicy { key }, BootEvent::Policy { loaded }) => after_policy(
            options,
            key,
            loaded,
        ),
        (BootStageView::OpeningSecurity, BootEvent::Done) => BootMove {
            stage: BootStageView::SelfChecking,
            step: BootStepView::SelfCheck,
        },
        (BootStageView::OpeningSecurity, BootEvent::Failed { detail }) => aborted(
            unopened(options, detail@),
        ),
        (BootStageView::SelfChecking, BootEvent::Done) => if serves(options) {
            BootMove { stage: BootStageView::VerifyingChain, step: BootStepView::VerifyChain }
        } else {
            opening_store()
        },
        (BootStageView::SelfChecking, BootEvent::Failed { detail }) => aborted(
            "security self-check failed: "@ + detail@,
        ),
        (BootStageView::VerifyingChain, BootEvent::Done) => opening_store(),
        (BootStageView::VerifyingChain, BootEvent::Failed { detail }) => aborted(
            "audit chain verification failed: "@ + detail@,
        ),
        (BootStageView::OpeningStore, BootEvent::Done) => after_store(options),
        (BootStageView::OpeningStore, BootEvent::Failed { detail }) => aborted(detail@),
        (BootStageView::IssuingKey, BootEvent::Issued { key }) => exiting(Some(key@)),
        (BootStageView::IssuingKey, BootEvent::Failed { detail }) => aborted(detail@),
        (BootStageView::ReadingPassword, BootEvent::Password { password }) => after_password(
            options,
            password,
        ),
        (BootStageView::CreatingUser, BootEvent::Done) => exiting(None),
        (BootStageView::CreatingUser, BootEvent::Failed { detail }) => aborted(detail@),
        (BootStageView::OpeningPlugins, BootEvent::Done) => BootMove {
            stage: BootStageView::EnsuringCollection,
            step: BootStepView::EnsureCollection {
                name: REVOKED_SESSIONS@,
                indexed_fields: seq![REVOKED_EXP_FIELD@],
            },
        },
        (BootStageView::OpeningPlugins, BootEvent::Failed { detail }) => aborted(detail@),
        (BootStageView::EnsuringCollection, BootEvent::Done) => serving(options),
        (BootStageView::EnsuringCollection, BootEvent::Failed { detail }) => aborted(
            "ensuring revocation collection: "@ + detail@,
        ),
        _ => aborted("internal error"@),
    }
}

/// Opens the machine.
pub fn start(options: Options) -> (next: (Boot, BootStep))
    ensures
        next.0@.options == options,
        (BootMove { stage: next.0@.stage, step: next.1@ }) == first_move(options),
{
    let bind = options.bind.clone();
    (Boot { options, stage: BootStage::Binding }, BootStep::ParseBind { bind })
}

fn to_stage(options: Options, stage: BootStage, step: BootStep) -> (next: (Boot, BootStep))
    ensures
        next.0@.options == options,
        next.0@.stage == stage@,
        next.1@ == step@,
{
    (Boot { options, stage }, step)
}

fn abort(options: Options, message: String) -> (next: (Boot, BootStep))
    ensures
        next.0@.options == options,
        (BootMove { stage: next.0@.stage, step: next.1@ }) == aborted(message@),
{
    (Boot { options, stage: BootStage::Finished }, BootStep::Abort { message })
}

fn abort_with(options: Options, what: &str, detail: &str) -> (next: (Boot, BootStep))
    ensures
        next.0@.options == options,
        (BootMove { stage: next.0@.stage, step: next.1@ }) == aborted(what@ + detail@),
{
    let mut message = what.to_owned();
    message.append(detail);
    abort(options, message)
}

fn is_serving(options: &Options) -> (yes: bool)
    ensures
        yes == serves(*options),
{
    !options.issue_bootstrap_key && options.create_admin.is_none()
}

fn bind(options: Options, address: Option<Bound>) -> (next: (Boot, BootStep))
    ensures
        next.0@.options == options,
        (BootMove { stage: next.0@.stage, step: next.1@ }) == after_bind(options, address),
{
    match address {
        None => {
            let mut message = "invalid --bind address '".to_owned();
            message.append(options.bind.as_str());
            message.append("'");
            abort(options, message)
        },
        Some(bound) => {
            if !is_loopback(bound.ip) && !options.allow_remote_http {
                let mut message = "refusing to bind non-loopback address ".to_owned();
                message.append(bound.text.as_str());
                message.append(
                    " over plain HTTP. Put a TLS-terminating reverse proxy in front and keep this on loopback, or pass --insecure-allow-remote-http to override (NOT recommended).",
                );
                abort(options, message)
            } else {
                to_stage(options, BootStage::ReadingKey, BootStep::ReadKey)
            }
        },
    }
}

/// Decides what a key file is good for: its key, a new one if there is no
/// file, or a refusal to start.
fn load_or_create_key(options: Options, file: KeyFile) -> (next: (Boot, BootStep))
    ensures
        next.0@.options == options,
        (BootMove { stage: next.0@.stage, step: next.1@ }) == after_key(file),
{
    match file {
        KeyFile::Missing => to_stage(options, BootStage::DrawingKey, BootStep::DrawKey),
        KeyFile::Unreadable { detail } => abort_with(
            options,
            "reading session key file: ",
            detail.as_str(),
        ),
        KeyFile::Present { bytes } => match read_key(bytes.as_slice()) {
            Ok(key) => to_stage(options, BootStage::LoadingPolicy { key }, BootStep::LoadPolicy),
            Err(error) => abort(options, error.message().to_owned()),
        },
    }
}

fn open_security(options: Options, key: [u8; 32], loaded: bool) -> (next: (Boot, BootStep))
    ensures
        next.0@.options == options,
        (BootMove { stage: next.0@.stage, step: next.1@ }) == after_policy(options, key@, loaded),
{
    let audit_file: Option<String> = if is_serving(&options) {
        match &options.audit_file {
            Some(path) => Some(path.clone()),
            None => {
                return abort(options, "--audit-file is required to serve".to_owned());
            },
        }
    } else {
        None
    };
    to_stage(
        options,
        BootStage::OpeningSecurity,
        BootStep::OpenSecurity { key, deny_all: !loaded, audit_file },
    )
}

fn serve(options: Options) -> (next: (Boot, BootStep))
    requires
        decidable_origins(texts(options.cors_origins@)),
    ensures
        next.0@.options == options,
        (BootMove { stage: next.0@.stage, step: next.1@ }) == serving(options),
{
    proof {
        api_routes_can_be_mounted();
    }
    let routes = match build_router(route_table()) {
        Ok(routes) => routes,
        Err(message) => {
            return abort(options, message);
        },
    };
    match build_cors(&options.cors_origins) {
        Ok(cors) => to_stage(options, BootStage::Finished, BootStep::Serve { routes, cors }),
        Err(message) => abort(options, message),
    }
}

impl Boot {
    /// Takes the event of the last step to the next one.
    pub fn advance(self, event: BootEvent) -> (next: (Boot, BootStep))
        requires
            foresees(self@.options, self@.stage, event),
        ensures
            next.0@.options == self@.options,
            (BootMove { stage: next.0@.stage, step: next.1@ }) == next_move(
                self@.options,
                self@.stage,
                event,
            ),
    {
        let options = self.options;
        match (self.stage, event) {
            (BootStage::Binding, BootEvent::Address { address }) => bind(options, address),
            (BootStage::ReadingKey, BootEvent::Key { file }) => load_or_create_key(options, file),
            (BootStage::DrawingKey, BootEvent::Drawn { key }) => {
                if is_serving(&options) {
                    to_stage(
                        options,
                        BootStage::CreatingKeyFile { key },
                        BootStep::CreateKeyFile { bytes: key, mode: KEY_FILE_MODE },
                    )
                } else {
                    to_stage(options, BootStage::LoadingPolicy { key }, BootStep::LoadPolicy)
                }
            },
            (BootStage::CreatingKeyFile { key }, BootEvent::Done) => to_stage(
                options,
                BootStage::LoadingPolicy { key },
                BootStep::LoadPolicy,
            ),
            (BootStage::CreatingKeyFile { .. }, BootEvent::Failed { detail }) => abort(
                options,
                detail,
            ),
            (BootStage::LoadingPolicy { key }, BootEvent::Policy { loaded }) => open_security(
                options,
                key,
                loaded,
            ),
            (BootStage::OpeningSecurity, BootEvent::Done) => to_stage(
                options,
                BootStage::SelfChecking,
                BootStep::SelfCheck,
            ),
            (BootStage::OpeningSecurity, BootEvent::Failed { detail }) => {
                let what = if is_serving(&options) {
                    "audit file is mandatory and could not be opened: "
                } else {
                    "security module could not be opened: "
                };
                abort_with(options, what, detail.as_str())
            },
            (BootStage::SelfChecking, BootEvent::Done) => {
                if is_serving(&options) {
                    to_stage(options, BootStage::VerifyingChain, BootStep::VerifyChain)
                } else {
                    to_stage(options, BootStage::OpeningStore, BootStep::OpenStore)
                }
            },
            (BootStage::SelfChecking, BootEvent::Failed { detail }) => abort_with(
                options,
                "security self-check failed: ",
                detail.as_str(),
            ),
            (BootStage::VerifyingChain, BootEvent::Done) => to_stage(
                options,
                BootStage::OpeningStore,
                BootStep::OpenStore,
            ),
            (BootStage::VerifyingChain, BootEvent::Failed { detail }) => abort_with(
                options,
                "audit chain verification failed: ",
                detail.as_str(),
            ),
            (BootStage::OpeningStore, BootEvent::Done) => {
                if options.issue_bootstrap_key {
                    to_stage(options, BootStage::IssuingKey, BootStep::IssueBootstrapKey)
                } else if options.create_admin.is_some() {
                    to_stage(options, BootStage::ReadingPassword, BootStep::ReadAdminPassword)
                } else {
                    to_stage(options, BootStage::OpeningPlugins, BootStep::OpenPlugins)
                }
            },
            (BootStage::OpeningStore, BootEvent::Failed { detail }) => abort(options, detail),
            (BootStage::IssuingKey, BootEvent::Issued { key }) => to_stage(
                options,
                BootStage::Finished,
                BootStep::Exit { output: Some(key) },
            ),
            (BootStage::IssuingKey, BootEvent::Failed { detail }) => abort(options, detail),
            (BootStage::ReadingPassword, BootEvent::Password { password }) => {
                match (password, &options.create_admin) {
                    (Some(password), Some(admin)) => {
                        let username = admin.clone();
                        let roles: Vec<Role> = vec![Role::Viewer, Role::Operator, Role::Admin];
                        assert(roles@ =~= admin_roles());
                        to_stage(
                            options,
                            BootStage::CreatingUser,
                            BootStep::CreateUser { username, password, roles },
                        )
                    },
                    _ => abort(
                        options,
                        "WYRTLOOM_ADMIN_PASSWORD must be set to create an administrator".to_owned(),
                    ),
                }
            },
            (BootStage::CreatingUser, BootEvent::Done) => to_stage(
                options,
                BootStage::Finished,
                BootStep::Exit { output: None },
            ),
            (BootStage::CreatingUser, BootEvent::Failed { detail }) => abort(options, detail),
            (BootStage::OpeningPlugins, BootEvent::Done) => {
                let collection = ensure_collections();
                assert(texts(collection.indexed_fields@) =~= seq![REVOKED_EXP_FIELD@]);
                to_stage(
                    options,
                    BootStage::EnsuringCollection,
                    BootStep::EnsureCollection { collection },
                )
            },
            (BootStage::OpeningPlugins, BootEvent::Failed { detail }) => abort(options, detail),
            (BootStage::EnsuringCollection, BootEvent::Done) => serve(options),
            (BootStage::EnsuringCollection, BootEvent::Failed { detail }) => abort_with(
                options,
                "ensuring revocation collection: ",
                detail.as_str(),
            ),
            _ => abort(options, "internal error".to_owned()),
        }
    }
}

} // verus!
