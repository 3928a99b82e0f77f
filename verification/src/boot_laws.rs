//! What startup guarantees, whatever the steps end with.

use vstd::prelude::*;

use crate::auth::text_view;
use crate::boot::{
    admin_roles, first_move, foresees, next_move, serves, with_key, BootEvent,
    BootMove, BootStageView, BootStepView, Bound, KeyFile, Options, KEY_FILE_MODE,
};
use crate::outside::is_field_value;
use crate::routes::{all_gated, all_routes, api_routes_can_be_mounted, distinct_rows};
use crate::startup::{
    cors_policy, decidable_origins, first_invalid, loopback, session_key, CorsView, IpAddress,
    KeyError,
};
use crate::state::{REVOKED_EXP_FIELD, REVOKED_SESSIONS};
use crate::text::texts;
use crate::users::Role;

verus! {

/// Where startup stands after these events.
pub open spec fn boot_after(options: Options, events: Seq<BootEvent>) -> BootMove
    decreases events.len(),
{
    if events.len() == 0 {
        first_move(options)
    } else {
        next_move(options, boot_after(options, events.drop_last()).stage, events.last())
    }
}

/// Whether each event is one of the step that was asked for.
pub open spec fn boot_in_turn(options: Options, events: Seq<BootEvent>) -> bool
    decreases events.len(),
{
    events.len() > 0 ==> boot_in_turn(options, events.drop_last()) && foresees(
        options,
        boot_after(options, events.drop_last()).stage,
        events.last(),
    )
}

/// Whether the address to bind is loopback, or remote HTTP is allowed.
pub open spec fn transport_allowed(options: Options, events: Seq<BootEvent>) -> bool {
    events.len() > 0 && (events[0] matches BootEvent::Address { address } && (
    address matches Some(bound) && (loopback(bound.ip) || options.allow_remote_http)))
}

/// Whether this step was asked for and done.
pub open spec fn was_done(options: Options, events: Seq<BootEvent>, step: BootStepView) -> bool {
    exists|k: int|
        0 <= k < events.len() && #[trigger] events[k] is Done && boot_after(
            options,
            events.take(k),
        ).step == step
}

/// The audit file that the security module is to be opened with.
pub open spec fn due_audit_file(options: Options) -> Option<Seq<char>> {
    if serves(options) {
        text_view(options.audit_file)
    } else {
        None
    }
}

/// Whether the security module was opened, with a key of thirty-two bytes and
/// with the audit file that is due.
pub open spec fn security_opened(options: Options, events: Seq<BootEvent>) -> bool {
    exists|k: int|
        0 <= k < events.len() && #[trigger] events[k] is Done && (boot_after(
            options,
            events.take(k),
        ).step matches BootStepView::OpenSecurity { key, audit_file, .. } && key.len() == 32
            && audit_file == due_audit_file(options))
}

/// Whether the security module is open, has checked itself and, to serve,
/// holds an audit chain that verifies.
pub open spec fn security_ready(options: Options, events: Seq<BootEvent>) -> bool {
    &&& security_opened(options, events)
    &&& was_done(options, events, BootStepView::SelfCheck)
    &&& serves(options) ==> options.audit_file is Some && was_done(
        options,
        events,
        BootStepView::VerifyChain,
    )
}

/// The step that keeps the denylist's collection.
pub open spec fn collection_step() -> BootStepView {
    BootStepView::EnsureCollection {
        name: REVOKED_SESSIONS@,
        indexed_fields: seq![REVOKED_EXP_FIELD@],
    }
}

/// The step that each stage waits on, and what led there.
spec fn led_here(options: Options, events: Seq<BootEvent>, now: BootMove) -> bool {
    let len = events.len();
    let store_open = was_done(options, events, BootStepView::OpenStore);
    &&& !(now.stage is Binding) && !(now.step is Abort) ==> transport_allowed(options, events)
    &&& match now.stage {
        BootStageView::Binding => len == 0 && now.step is ParseBind,
        BootStageView::ReadingKey => len == 1 && now.step is ReadKey,
        BootStageView::DrawingKey => len == 2 && now.step is DrawKey,
        BootStageView::CreatingKeyFile { key } => len == 3 && now.step == (
        BootStepView::CreateKeyFile { bytes: key, mode: KEY_FILE_MODE }) && key.len() == 32
            && serves(options),
        BootStageView::LoadingPolicy { key } => len <= 4 && now.step is LoadPolicy && key.len()
            == 32,
        BootStageView::OpeningSecurity => len <= 5 && (
        now.step matches BootStepView::OpenSecurity { key, audit_file, .. } && key.len() == 32
            && audit_file == due_audit_file(options)) && (serves(options)
            ==> options.audit_file is Some),
        BootStageView::SelfChecking => len <= 6 && now.step is SelfCheck && security_opened(
            options,
            events,
        ) && (serves(options) ==> options.audit_file is Some),
        BootStageView::VerifyingChain => len <= 7 && now.step is VerifyChain && serves(options)
            && options.audit_file is Some && security_opened(options, events) && was_done(
            options,
            events,
            BootStepView::SelfCheck,
        ),
        BootStageView::OpeningStore => len <= 8 && now.step is OpenStore && security_ready(
            options,
            events,
        ),
        BootStageView::IssuingKey => len <= 9 && now.step is IssueBootstrapKey
            && options.issue_bootstrap_key && security_ready(options, events) && store_open,
        BootStageView::ReadingPassword => len <= 9 && now.step is ReadAdminPassword
            && options.create_admin is Some && !options.issue_bootstrap_key && security_ready(
            options,
            events,
        ) && store_open,
        BootStageView::CreatingUser => len <= 10 && (
        now.step matches BootStepView::CreateUser { username, roles, .. }
            && options.create_admin matches Some(admin) && username == admin@ && roles
            == admin_roles()) && security_ready(options, events) && store_open,
        BootStageView::OpeningPlugins => len <= 9 && now.step is OpenPlugins && serves(options)
            && security_ready(options, events) && store_open,
        BootStageView::EnsuringCollection => len <= 10 && now.step == collection_step() && serves(
            options,
        ) && security_ready(options, events) && store_open && was_done(
            options,
            events,
            BootStepView::OpenPlugins,
        ),
        BootStageView::Finished => len <= 11 && match now.step {
            BootStepView::Serve { routes, cors } => serves(options) && security_ready(
                options,
                events,
            ) && store_open && was_done(options, events, BootStepView::OpenPlugins) && was_done(
                options,
                events,
                collection_step(),
            ) && routes == all_routes() && cors_policy(texts(options.cors_origins@)) == Ok::<
                CorsView,
                Seq<char>,
            >(cors),
            BootStepView::Exit { .. } => !serves(options) && security_ready(options, events)
                && store_open,
            BootStepView::Abort { .. } => true,
            _ => false,
        },
    }
}

/// What was done stays done.
proof fn keeps(options: Options, events: Seq<BootEvent>, event: BootEvent)
    ensures
        forall|step: BootStepView| #[trigger]
            was_done(options, events, step) ==> was_done(options, events.push(event), step),
        security_opened(options, events) ==> security_opened(options, events.push(event)),
        event is Done ==> was_done(
            options,
            events.push(event),
            boot_after(options, events).step,
        ),
        event is Done && (boot_after(options, events).step matches BootStepView::OpenSecurity {
            key,
            audit_file,
            ..
        } && key.len() == 32 && audit_file == due_audit_file(options)) ==> security_opened(
            options,
            events.push(event),
        ),
{
    let all = events.push(event);
    assert forall|k: int| 0 <= k < events.len() implies all.take(k) == events.take(k) && all[k]
        == events[k] by {
        assert(all.take(k) =~= events.take(k));
    }
    assert(all.take(events.len() as int) =~= events);
    assert(all[events.len() as int] == event);
    assert forall|step: BootStepView| #[trigger] was_done(options, events, step) implies was_done(
        options,
        all,
        step,
    ) by {
        let k = choose|k: int|
            0 <= k < events.len() && #[trigger] events[k] is Done && boot_after(
                options,
                events.take(k),
            ).step == step;
        assert(all[k] is Done);
    }
    if security_opened(options, events) {
        let k = choose|k: int|
            0 <= k < events.len() && #[trigger] events[k] is Done && (boot_after(
                options,
                events.take(k),
            ).step matches BootStepView::OpenSecurity { key, audit_file, .. } && key.len() == 32
                && audit_file == due_audit_file(options));
        assert(all[k] is Done);
    }
}

#[verifier::spinoff_prover]
proof fn next_is_led(options: Options, events: Seq<BootEvent>, event: BootEvent)
    requires
        led_here(options, events, boot_after(options, events)),
        foresees(options, boot_after(options, events).stage, event),
    ensures
        led_here(
            options,
            events.push(event),
            next_move(options, boot_after(options, events).stage, event),
        ),
{
    keeps(options, events, event);
    if events.len() > 0 {
        assert(events.push(event)[0] == events[0]);
    }
}

proof fn always_led(options: Options, events: Seq<BootEvent>)
    requires
        boot_in_turn(options, events),
    ensures
        led_here(options, events, boot_after(options, events)),
    decreases events.len(),
{
    if events.len() > 0 {
        let earlier = events.drop_last();
        always_led(options, earlier);
        next_is_led(options, earlier, events.last());
        assert(earlier.push(events.last()) =~= events);
    }
}

/// Startup ends, after eleven steps at most.
pub proof fn startup_ends(options: Options, events: Seq<BootEvent>)
    requires
        boot_in_turn(options, events),
    ensures
        events.len() <= 11,
        events.len() == 11 ==> boot_after(options, events).stage is Finished,
        boot_after(options, events).stage is Finished <==> (boot_after(
            options,
            events,
        ).step is Serve || boot_after(options, events).step is Exit || boot_after(
            options,
            events,
        ).step is Abort),
{
    always_led(options, events);
}

/// Provisioning writes to the store alone: it creates no key file, opens the
/// security module without the audit file, verifies no chain, opens neither the
/// board nor the call log, and serves nothing.
pub proof fn provisioning_writes_to_the_store_alone(options: Options, events: Seq<BootEvent>)
    requires
        boot_in_turn(options, events),
        !serves(options),
    ensures
        !(boot_after(options, events).step is CreateKeyFile),
        !(boot_after(options, events).step is OpenPlugins),
        boot_after(options, events).step matches BootStepView::OpenSecurity { audit_file, .. }
            ==> audit_file is None,
        !(boot_after(options, events).step is VerifyChain),
        !(boot_after(options, events).step is Serve),
{
    always_led(options, events);
}

/// Nothing is served unless the transport guard passed, the security module is
/// open with the audit file, has checked itself and its chain verifies, and
/// the store, the plugins and the denylist's collection are there. What is
/// served is the gated route table, without overlaps, under exact-origin rules.
pub proof fn serving_needs_every_check(options: Options, events: Seq<BootEvent>)
    requires
        boot_in_turn(options, events),
        boot_after(options, events).step is Serve,
    ensures
        serves(options),
        transport_allowed(options, events),
        options.audit_file is Some,
        security_ready(options, events),
        was_done(options, events, BootStepView::OpenStore),
        was_done(options, events, BootStepView::OpenPlugins),
        was_done(options, events, collection_step()),
        boot_after(options, events).step matches BootStepView::Serve { routes, cors } && routes
            == all_routes() && all_gated(routes) && distinct_rows(routes) && cors.origins == texts(
            options.cors_origins@,
        ) && (cors.allow_credentials <==> cors.origins.len() > 0),
{
    always_led(options, events);
    api_routes_can_be_mounted();
}

/// Nothing is opened, drawn or served for an address that the transport guard
/// refuses.
pub proof fn transport_guard_comes_first(options: Options, events: Seq<BootEvent>)
    requires
        boot_in_turn(options, events),
        !transport_allowed(options, events),
    ensures
        boot_after(options, events).step is ParseBind || boot_after(options, events).step is Abort,
{
    always_led(options, events);
}

/// The administrator that provisioning creates holds every role.
pub proof fn administrators_hold_every_role(options: Options, events: Seq<BootEvent>, role: Role)
    requires
        boot_in_turn(options, events),
    ensures
        boot_after(options, events).step matches BootStepView::CreateUser { username, roles, .. }
            ==> options.create_admin is Some && username == options.create_admin->0@
            && roles.contains(role),
{
    always_led(options, events);
    assert(admin_roles()[0] == Role::Viewer && admin_roles()[1] == Role::Operator
        && admin_roles()[2] == Role::Admin);
}

/// A file: its bytes and its permissions.
pub struct StoredFile {
    pub bytes: Seq<u8>,
    pub mode: u32,
}

/// Whether the creation of a file ended with this event: it is done only where
/// there was none, and leaves exactly what was asked for; a file that is there
/// already makes it fail, and stays as it is.
pub open spec fn creates(
    before: Option<StoredFile>,
    after: Option<StoredFile>,
    bytes: Seq<u8>,
    mode: u32,
    event: BootEvent,
) -> bool {
    &&& event is Done || event is Failed
    &&& event is Done ==> before is None && after == Some(StoredFile { bytes, mode })
    &&& before is Some ==> after == before
}

/// Whether reading a file ended with this.
pub open spec fn reads(file: Option<StoredFile>, found: KeyFile) -> bool {
    match file {
        None => found is Missing,
        Some(file) => found matches KeyFile::Present { bytes } && bytes@ == file.bytes,
    }
}

/// A key of thirty-two bytes that are not all zero reads back as itself.
pub proof fn keys_read_back(key: Seq<u8>)
    requires
        key.len() == 32,
        exists|i: int| 0 <= i < key.len() && #[trigger] key[i] != 0,
    ensures
        session_key(key) == Ok::<Seq<u8>, KeyError>(key),
{
    let i = choose|i: int| 0 <= i < key.len() && #[trigger] key[i] != 0;
    assert(key[i] != 0);
}

/// A key that was drawn to serve is written and reused: the start that draws it
/// leaves a file of exactly its thirty-two bytes that its owner alone can read,
/// and goes on with it; and as long as nobody touches the file, every later
/// start reads it and goes on with the same key. A drawn key that is all zero is
/// the exception: the file is refused when it is read.
pub proof fn drawn_keys_are_reused(
    options: Options,
    events: Seq<BootEvent>,
    before: Option<StoredFile>,
    after: Option<StoredFile>,
    bytes: Seq<u8>,
    mode: u32,
    event: BootEvent,
    later: Options,
    found: KeyFile,
)
    requires
        boot_in_turn(options, events),
        boot_after(options, events).step == (BootStepView::CreateKeyFile { bytes, mode }),
        creates(before, after, bytes, mode, event),
        event is Done,
        exists|i: int| 0 <= i < bytes.len() && #[trigger] bytes[i] != 0,
        reads(after, found),
    ensures
        serves(options),
        bytes.len() == 32,
        after == Some(StoredFile { bytes, mode: KEY_FILE_MODE }),
        events.last() matches BootEvent::Drawn { key } && key@ == bytes,
        next_move(options, boot_after(options, events).stage, event) == with_key(bytes),
        next_move(later, BootStageView::ReadingKey, BootEvent::Key { file: found }) == with_key(
            bytes,
        ),
{
    always_led(options, events);
    creating_follows_drawing(options, events);
    keys_read_back(bytes);
}

/// A key file that appeared since it was found missing is never overwritten:
/// it stays as it is, and the start aborts.
pub proof fn existing_key_files_are_kept(
    options: Options,
    events: Seq<BootEvent>,
    before: StoredFile,
    after: Option<StoredFile>,
    bytes: Seq<u8>,
    mode: u32,
    event: BootEvent,
)
    requires
        boot_in_turn(options, events),
        boot_after(options, events).step == (BootStepView::CreateKeyFile { bytes, mode }),
        creates(Some(before), after, bytes, mode, event),
    ensures
        after == Some(before),
        next_move(options, boot_after(options, events).stage, event).step is Abort,
{
    always_led(options, events);
    creating_follows_drawing(options, events);
}

proof fn creating_follows_drawing(options: Options, events: Seq<BootEvent>)
    requires
        boot_in_turn(options, events),
        boot_after(options, events).step is CreateKeyFile,
    ensures
        events.len() > 0,
        events.last() matches BootEvent::Drawn { key } && boot_after(options, events).step == (
        BootStepView::CreateKeyFile { bytes: key@, mode: KEY_FILE_MODE }) && boot_after(
            options,
            events,
        ).stage == (BootStageView::CreatingKeyFile { key: key@ }),
{
}

// ---------------------------------------------------------------------------
// What startup asks for, in terms of what it was given
// ---------------------------------------------------------------------------

/// Whether startup, after these events and one more, asks for this step.
pub open spec fn then_asks(
    options: Options,
    events: Seq<BootEvent>,
    event: BootEvent,
    step: BootStepView,
) -> bool {
    boot_after(options, events.push(event)).step == step
}

proof fn one_event_more(options: Options, events: Seq<BootEvent>, event: BootEvent)
    ensures
        boot_after(options, events.push(event)) == next_move(
            options,
            boot_after(options, events).stage,
            event,
        ),
{
    assert(events.push(event).drop_last() =~= events);
}

/// The address that is parsed is the one that was given, an address that does
/// not parse is named, and one that is not loopback is refused by name unless
/// remote HTTP is allowed. Loopback is 127.0.0.0/8 and ::1.
pub proof fn addresses_are_guarded(options: Options, bound: Bound)
    ensures
        boot_after(options, seq![]).step == (BootStepView::ParseBind { bind: options.bind@ }),
        then_asks(
            options,
            seq![],
            BootEvent::Address { address: None },
            BootStepView::Abort {
                message: "invalid --bind address '"@ + options.bind@ + "'"@,
            },
        ),
        ({
            let local = match bound.ip {
                IpAddress::V4 { octets } => octets@[0] == 127,
                IpAddress::V6 { segments } => segments@[0] == 0 && segments@[1] == 0 && segments@[2]
                    == 0 && segments@[3] == 0 && segments@[4] == 0 && segments@[5] == 0
                    && segments@[6] == 0 && segments@[7] == 1,
            };
            let address = BootEvent::Address { address: Some(bound) };
            &&& local || options.allow_remote_http ==> then_asks(
                options,
                seq![],
                address,
                BootStepView::ReadKey,
            )
            &&& !local && !options.allow_remote_http ==> then_asks(
                options,
                seq![],
                address,
                BootStepView::Abort {
                    message: "refusing to bind non-loopback address "@ + bound.text@
                        + " over plain HTTP. Put a TLS-terminating reverse proxy in front and keep this on loopback, or pass --insecure-allow-remote-http to override (NOT recommended)."@,
                },
            )
        }),
{
    one_event_more(options, seq![], BootEvent::Address { address: None });
    one_event_more(options, seq![], BootEvent::Address { address: Some(bound) });
    match bound.ip {
        IpAddress::V4 { .. } => {},
        IpAddress::V6 { segments } => {
            if segments@[0] == 0 && segments@[1] == 0 && segments@[2] == 0 && segments@[3] == 0
                && segments@[4] == 0 && segments@[5] == 0 && segments@[6] == 0 && segments@[7]
                == 1 {
                assert(segments@ =~= seq![0u16, 0, 0, 0, 0, 0, 0, 1]);
            }
        },
    }
}

/// A key file of thirty-two bytes that are not all zero is the key, and the
/// security module is opened with exactly those bytes; any other length, and
/// zeros alone, are refused, and so is a file that cannot be read.
pub proof fn the_key_is_what_the_file_holds(
    options: Options,
    events: Seq<BootEvent>,
    bytes: Vec<u8>,
    loaded: bool,
    detail: String,
)
    requires
        boot_in_turn(options, events),
        boot_after(options, events).step is ReadKey,
    ensures
        ({
            let present = BootEvent::Key { file: KeyFile::Present { bytes } };
            let zero = forall|i: int| 0 <= i < bytes@.len() ==> #[trigger] bytes@[i] == 0;
            &&& bytes@.len() != 32 ==> then_asks(
                options,
                events,
                present,
                BootStepView::Abort { message: "session key file must be exactly 32 bytes"@ },
            )
            &&& bytes@.len() == 32 && zero ==> then_asks(
                options,
                events,
                present,
                BootStepView::Abort { message: "session key file is all-zero (invalid)"@ },
            )
            &&& bytes@.len() == 32 && !zero ==> then_asks(
                options,
                events,
                present,
                BootStepView::LoadPolicy,
            ) && opens_security_with(
                options,
                events.push(present),
                bytes@,
                loaded,
            )
        }),
        then_asks(
            options,
            events,
            BootEvent::Key { file: KeyFile::Unreadable { detail } },
            BootStepView::Abort { message: "reading session key file: "@ + detail@ },
        ),
        then_asks(
            options,
            events,
            BootEvent::Key { file: KeyFile::Missing },
            BootStepView::DrawKey,
        ),
{
    always_led(options, events);
    let present = BootEvent::Key { file: KeyFile::Present { bytes } };
    one_event_more(options, events, present);
    one_event_more(options, events, BootEvent::Key { file: KeyFile::Unreadable { detail } });
    one_event_more(options, events, BootEvent::Key { file: KeyFile::Missing });
    one_event_more(options, events.push(present), BootEvent::Policy { loaded });
}

/// Whether the policy's loading leads to the security module being opened with
/// this key: under the loaded policy, or one that denies all, and with the audit
/// file exactly if the program serves, which it does not do without one.
pub open spec fn opens_security_with(
    options: Options,
    events: Seq<BootEvent>,
    key: Seq<u8>,
    loaded: bool,
) -> bool {
    let provisions = options.issue_bootstrap_key || options.create_admin is Some;
    let next = boot_after(options, events.push(BootEvent::Policy { loaded })).step;
    match options.audit_file {
        Some(path) => next == (BootStepView::OpenSecurity {
            key,
            deny_all: !loaded,
            audit_file: if provisions {
                None
            } else {
                Some(path@)
            },
        }),
        None => if provisions {
            next == (BootStepView::OpenSecurity { key, deny_all: !loaded, audit_file: None })
        } else {
            next == (BootStepView::Abort { message: "--audit-file is required to serve"@ })
        },
    }
}

/// A key that is drawn is the one that the security module is opened with: to
/// serve, once a file of its bytes that its owner alone can read is there; to
/// provision, at once, and no file is made.
pub proof fn a_drawn_key_is_used(
    options: Options,
    events: Seq<BootEvent>,
    key: [u8; 32],
    loaded: bool,
)
    requires
        boot_in_turn(options, events),
        boot_after(options, events).step is DrawKey,
    ensures
        ({
            let provisions = options.issue_bootstrap_key || options.create_admin is Some;
            let drawn = events.push(BootEvent::Drawn { key });
            &&& provisions ==> boot_after(options, drawn).step is LoadPolicy
                && opens_security_with(options, drawn, key@, loaded)
            &&& !provisions ==> boot_after(options, drawn).step == (BootStepView::CreateKeyFile {
                bytes: key@,
                mode: 0o600,
            }) && opens_security_with(options, drawn.push(BootEvent::Done), key@, loaded)
        }),
{
    always_led(options, events);
    let drawn = events.push(BootEvent::Drawn { key });
    one_event_more(options, events, BootEvent::Drawn { key });
    one_event_more(options, drawn, BootEvent::Done);
    one_event_more(options, drawn, BootEvent::Policy { loaded });
    one_event_more(options, drawn.push(BootEvent::Done), BootEvent::Policy { loaded });
}

/// Provisioning does what it was asked: the bootstrap key that was issued is the
/// one that is printed, all of it, and the administrator is created under the
/// name that was given, with the password that was read, in every role. Without
/// a password none is created.
pub proof fn provisioning_does_what_was_asked(
    options: Options,
    events: Seq<BootEvent>,
    key: String,
    password: String,
)
    requires
        boot_in_turn(options, events),
    ensures
        boot_after(options, events).step is OpenStore && options.issue_bootstrap_key ==> then_asks(
            options,
            events,
            BootEvent::Done,
            BootStepView::IssueBootstrapKey,
        ),
        boot_after(options, events).step is OpenStore && !options.issue_bootstrap_key
            && options.create_admin is Some ==> then_asks(
            options,
            events,
            BootEvent::Done,
            BootStepView::ReadAdminPassword,
        ),
        boot_after(options, events).step is IssueBootstrapKey ==> then_asks(
            options,
            events,
            BootEvent::Issued { key },
            BootStepView::Exit { output: Some(key@) },
        ),
        boot_after(options, events).step is ReadAdminPassword ==> (
        options.create_admin matches Some(admin) && then_asks(
            options,
            events,
            BootEvent::Password { password: Some(password) },
            BootStepView::CreateUser {
                username: admin@,
                password: password@,
                roles: seq![Role::Viewer, Role::Operator, Role::Admin],
            },
        )) && then_asks(
            options,
            events,
            BootEvent::Password { password: None },
            BootStepView::Abort {
                message: "WYRTLOOM_ADMIN_PASSWORD must be set to create an administrator"@,
            },
        ),
        boot_after(options, events).step is CreateUser ==> then_asks(
            options,
            events,
            BootEvent::Done,
            BootStepView::Exit { output: None },
        ),
{
    always_led(options, events);
    one_event_more(options, events, BootEvent::Done);
    one_event_more(options, events, BootEvent::Issued { key });
    one_event_more(options, events, BootEvent::Password { password: Some(password) });
    one_event_more(options, events, BootEvent::Password { password: None });
}

/// Steps that fail stop the program, and tell why, in full.
pub proof fn failed_steps_stop_the_program(
    options: Options,
    events: Seq<BootEvent>,
    detail: String,
)
    requires
        boot_in_turn(options, events),
    ensures
        ({
            let provisions = options.issue_bootstrap_key || options.create_admin is Some;
            let asked = boot_after(options, events).step;
            let after = boot_after(
                options,
                events.push(BootEvent::Failed { detail }),
            ).step;
            let told = |message: Seq<char>| BootStepView::Abort { message };
            &&& asked is CreateKeyFile || asked is OpenStore || asked is IssueBootstrapKey
                || asked is CreateUser || asked is OpenPlugins ==> after == told(detail@)
            &&& asked is OpenSecurity && !provisions ==> after == told(
                "audit file is mandatory and could not be opened: "@ + detail@,
            )
            &&& asked is OpenSecurity && provisions ==> after == told(
                "security module could not be opened: "@ + detail@,
            )
            &&& asked is SelfCheck ==> after == told("security self-check failed: "@ + detail@)
            &&& asked is VerifyChain ==> after == told(
                "audit chain verification failed: "@ + detail@,
            )
            &&& asked is EnsureCollection ==> after == told(
                "ensuring revocation collection: "@ + detail@,
            )
        }),
{
    always_led(options, events);
    one_event_more(options, events, BootEvent::Failed { detail });
}

/// Steps that are done lead on, in this order: the security module is opened,
/// checks itself and, to serve, verifies its chain; then the store, the plugins
/// and the denylist's collection, by its name and its index, are opened.
pub proof fn done_steps_lead_on(options: Options, events: Seq<BootEvent>)
    requires
        boot_in_turn(options, events),
    ensures
        ({
            let provisions = options.issue_bootstrap_key || options.create_admin is Some;
            let asked = boot_after(options, events).step;
            let after = boot_after(options, events.push(BootEvent::Done)).step;
            &&& asked is OpenSecurity ==> after is SelfCheck
            &&& asked is SelfCheck && !provisions ==> after is VerifyChain
            &&& asked is SelfCheck && provisions ==> after is OpenStore
            &&& asked is VerifyChain ==> after is OpenStore
            &&& asked is OpenStore && !provisions ==> after is OpenPlugins
            &&& asked is OpenPlugins ==> after == (BootStepView::EnsureCollection {
                name: "revoked_sessions"@,
                indexed_fields: seq!["exp_unix"@],
            })
        }),
{
    always_led(options, events);
    one_event_more(options, events, BootEvent::Done);
}

/// The program serves the API's routes to exactly the origins that it was given,
/// with credentials exactly if there are any; an origin that no header can hold
/// is named, the first one of them.
pub proof fn exactly_the_given_origins_are_served(
    options: Options,
    events: Seq<BootEvent>,
    first: int,
)
    requires
        boot_in_turn(options, events),
        boot_after(options, events).step is EnsureCollection,
    ensures
        ({
            let origins = options.cors_origins@;
            let after = boot_after(options, events.push(BootEvent::Done)).step;
            &&& (forall|i: int| 0 <= i < origins.len() ==> is_field_value(#[trigger] origins[i]@))
                ==> (after matches BootStepView::Serve { routes, cors } && routes == all_routes()
                && cors.origins.len() == origins.len() && (forall|i: int|
                0 <= i < origins.len() ==> #[trigger] cors.origins[i] == origins[i]@) && (
            cors.allow_credentials <==> origins.len() > 0) && cors.methods == seq![
                "GET"@,
                "POST"@,
                "PUT"@,
            ] && cors.headers == seq![
                "authorization"@,
                "content-type"@,
                "x-wyrtloom-client"@,
                "x-wyrtloom-timestamp"@,
                "x-wyrtloom-nonce"@,
                "x-wyrtloom-signature"@,
            ])
            &&& 0 <= first < origins.len() && !is_field_value(origins[first]@) && (forall|i: int|
                0 <= i < first ==> is_field_value(#[trigger] origins[i]@)) ==> after == (
            BootStepView::Abort {
                message: "invalid --cors-origin '"@ + origins[first]@ + "'"@,
            })
        }),
{
    always_led(options, events);
    one_event_more(options, events, BootEvent::Done);
    let origins = texts(options.cors_origins@);
    assert forall|i: int| 0 <= i < origins.len() implies origins[i]
        == #[trigger] options.cors_origins@[i]@ by {}
    invalid_origins_are_found(origins);
    let at = first_invalid(origins);
    if at < origins.len() && 0 <= first < origins.len() && at < first {
        assert(options.cors_origins@[at as int]@ == origins[at as int]);
    }
    if 0 <= first < at {
        assert(is_field_value(origins[first]));
    }
    if at < origins.len() {
        assert(options.cors_origins@[at as int]@ == origins[at as int]);
    }
}

proof fn invalid_origins_are_found(origins: Seq<Seq<char>>)
    ensures
        first_invalid(origins) <= origins.len(),
        first_invalid(origins) < origins.len() ==> !is_field_value(
            origins[first_invalid(origins) as int],
        ),
        forall|i: int| 0 <= i < first_invalid(origins) ==> is_field_value(#[trigger] origins[i]),
    decreases origins.len(),
{
    if origins.len() > 0 && is_field_value(origins[0]) {
        let rest = origins.drop_first();
        invalid_origins_are_found(rest);
        assert forall|i: int| 0 <= i < first_invalid(origins) implies is_field_value(
            #[trigger] origins[i],
        ) by {
            if i > 0 {
                assert(origins[i] == rest[i - 1]);
            }
        }
    }
}

/// However a step ends, startup can go on: every end that a step can have is one
/// that it takes, but for origins that no policy can be decided for.
pub proof fn every_end_of_a_step_is_taken(
    options: Options,
    events: Seq<BootEvent>,
    event: BootEvent,
)
    requires
        boot_in_turn(options, events),
        match boot_after(options, events).step {
            BootStepView::ParseBind { .. } => event is Address,
            BootStepView::ReadKey => event is Key,
            BootStepView::DrawKey => event is Drawn,
            BootStepView::LoadPolicy => event is Policy,
            BootStepView::IssueBootstrapKey => event is Issued || event is Failed,
            BootStepView::ReadAdminPassword => event is Password,
            BootStepView::EnsureCollection { .. } => (event is Done || event is Failed)
                && decidable_origins(texts(options.cors_origins@)),
            BootStepView::Serve { .. } => false,
            BootStepView::Exit { .. } => false,
            BootStepView::Abort { .. } => false,
            _ => event is Done || event is Failed,
        },
    ensures
        boot_in_turn(options, events.push(event)),
{
    always_led(options, events);
    assert(events.push(event).drop_last() =~= events);
}

} // verus!
