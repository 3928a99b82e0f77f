//! The endpoints, one component reply at a time.

use wyrtloom_dashboard::auth::AuthContext;
use wyrtloom_dashboard::config::{ConfigDocument, PluginManifest, SecuritySection};
use wyrtloom_dashboard::handlers::{
    actor_of, enroll, enrollment_request, login, mint_nonce, named_task, task_id, Authentication,
    BlockBody, BoardParams, ConfigRead, CreateTaskBody, EnrollBody, LogRead, LoginBody,
    TransitionBody,
};
use wyrtloom_dashboard::kanban::TaskState;
use wyrtloom_dashboard::operations::{begin, Call, Outcome, Progress, Step};
use wyrtloom_dashboard::reply::{error_body, frame_error, Answer, Body, Status};
use wyrtloom_dashboard::session::{SessionPayload, Stamp};
use wyrtloom_dashboard::users::{Role, User};

const TASK: &str = "67e55044-10b1-426f-9247-bb680e5fe0c8";
const TASK_BITS: u128 = 0x67e5504410b1426f9247bb680e5fe0c8;

fn alice() -> User {
    User { id: "alice".to_string(), roles: vec![Role::Operator, Role::Viewer], active: true }
}

fn context() -> AuthContext {
    AuthContext {
        client_id: "client".to_string(),
        user: Some(alice()),
        session: Some(SessionPayload {
            user_id: "alice".to_string(),
            roles: vec![],
            exp_unix: 900,
            nonce: "n".to_string(),
        }),
        session_bytes: Some(b"bytes".to_vec()),
    }
}

fn anonymous() -> AuthContext {
    AuthContext { client_id: String::new(), user: None, session: None, session_bytes: None }
}

fn answer(step: Step) -> Answer {
    match step {
        Step::Answer { answer } => answer,
        other => panic!("not answered: {other:?}"),
    }
}

fn error(step: Step) -> (u16, String) {
    let answer = answer(step);
    match answer.body {
        Body::Error { message } => (answer.status.code(), message),
        other => panic!("no error: {other:?}"),
    }
}

/// The answer to a call whose only step ends with `outcome`.
fn after_one(call: Call, outcome: Outcome) -> Step {
    let (progress, _) = begin(call, context());
    progress.follow(outcome).1
}

fn acknowledged(step: Step) {
    let answer = answer(step);
    assert_eq!(answer.status, Status::Success);
    assert!(matches!(answer.body, Body::Acknowledged));
}

#[test]
fn enrollment_decodes_the_key() {
    let body = EnrollBody {
        api_key: "k".to_string(),
        client_name: "c".to_string(),
        public_key_b64: "aGVsbG8=".to_string(),
    };
    let request = enroll(body).unwrap();
    assert_eq!(request.public_key, b"hello");
    assert_eq!((request.api_key.as_str(), request.client_name.as_str()), ("k", "c"));
}

#[test]
fn enrollment_with_a_bad_key_is_400() {
    let body = EnrollBody {
        api_key: String::new(),
        client_name: String::new(),
        public_key_b64: "a".to_string(),
    };
    let (_, step) = begin(Call::Enroll { body }, anonymous());
    assert_eq!(error(step), (400, "public_key_b64 is not valid base64".to_string()));
    let body = EnrollBody {
        api_key: String::new(),
        client_name: String::new(),
        public_key_b64: String::new(),
    };
    assert!(enrollment_request(body, None).is_err());
}

#[test]
fn nonce_is_url_safe_without_padding() {
    assert_eq!(mint_nonce(&[0xff; 16]), "_____________________w");
    assert_eq!(mint_nonce(&[0; 16]), "AAAAAAAAAAAAAAAAAAAAAA");
}

#[test]
fn session_lives_half_an_hour() {
    let payload = login(alice(), "n".to_string(), 1_700_000_000);
    assert_eq!(payload.user_id, "alice");
    assert_eq!(payload.roles, vec![Role::Operator, Role::Viewer]);
    assert_eq!(payload.exp_unix, 1_700_001_800);
    assert_eq!(payload.nonce, "n");
}

fn login_call() -> Call {
    Call::Login {
        body: LoginBody { username: "alice".to_string(), password: "pw".to_string() },
    }
}

#[test]
fn login_steps() {
    let (progress, step) = begin(login_call(), anonymous());
    assert!(matches!(step, Step::TakeSlot));
    let (progress, step) = progress.follow(Outcome::Done);
    match step {
        Step::Authenticate { username, password } => {
            assert_eq!((username.as_str(), password.as_str()), ("alice", "pw"))
        }
        other => panic!("{other:?}"),
    }
    let (progress, step) = progress.follow(Outcome::Authenticated {
        outcome: Authentication::Accepted { user: alice() },
    });
    assert!(matches!(step, Step::DrawNonce));
    let (progress, step) = progress.follow(Outcome::Random { bytes: [0; 16] });
    assert!(matches!(step, Step::ReadClock));
    let (progress, step) = progress.follow(Outcome::Clock { now: 200 });
    match step {
        Step::EncodePayload { payload } => {
            assert_eq!(payload.exp_unix, 2000);
            assert_eq!(payload.nonce, "AAAAAAAAAAAAAAAAAAAAAA");
        }
        other => panic!("{other:?}"),
    }
    let (progress, step) = progress.follow(Outcome::Encoded { payload_json: b"hello".to_vec() });
    assert!(matches!(step, Step::StampPayload { payload_json } if payload_json == b"hello"));
    let (progress, step) = progress.follow(Outcome::Stamped { stamp: Stamp([1; 32]) });
    match step {
        Step::Record { decision } => {
            assert!(decision.allowed);
            assert_eq!(decision.detail, "login ok user=alice");
        }
        other => panic!("{other:?}"),
    }
    let (progress, step) = progress.follow(Outcome::Done);
    assert!(matches!(progress, Progress::Finished));
    let answer = answer(step);
    assert_eq!(answer.status.code(), 200);
    match answer.body {
        Body::Session { token, exp_unix } => {
            assert_eq!(token, format!("aGVsbG8=.{}", "01".repeat(32)));
            assert_eq!(exp_unix, 2000);
        }
        other => panic!("{other:?}"),
    }
}

#[test]
fn login_that_fails_to_run_is_500_and_not_recorded() {
    let (progress, _) = begin(login_call(), anonymous());
    let (progress, _) = progress.follow(Outcome::Done);
    let (_, step) =
        progress.follow(Outcome::Authenticated { outcome: Authentication::Failed });
    assert_eq!(error(step), (500, "auth task failed".to_string()));
}

#[test]
fn logout_steps() {
    let (progress, step) = begin(Call::Logout, context());
    assert!(matches!(step, Step::ReadClock));
    let (progress, step) = progress.follow(Outcome::Clock { now: 100 });
    assert!(matches!(step, Step::ListRevocations));
    let (progress, step) = progress.follow(Outcome::Revocations { records: None });
    match step {
        Step::Revoke { plan } => {
            assert!(plan.delete.is_empty());
            assert_eq!((plan.put.id.as_str(), plan.put.exp_unix), ("n", Some(900)));
        }
        other => panic!("{other:?}"),
    }
    let (progress, step) = progress.follow(Outcome::Accepted { accepted: true });
    assert!(matches!(step, Step::InvalidateStamp { payload_bytes } if payload_bytes == b"bytes"));
    acknowledged(progress.follow(Outcome::Done).1);
}

#[test]
fn board_filters_and_groups() {
    let call = || Call::Board { params: BoardParams { states: Some("Done,Todo".to_string()) } };
    let (_, step) = begin(call(), context());
    match step {
        Step::ListBoard { states } => {
            assert_eq!(states, Some(vec![TaskState::Done, TaskState::Todo]))
        }
        other => panic!("{other:?}"),
    }
    let listed = Outcome::Listed { states: Some(vec![TaskState::Todo, TaskState::Done]) };
    match answer(after_one(call(), listed)).body {
        Body::Columns { columns } => {
            assert_eq!(columns.len(), 2);
            assert_eq!((columns[0].state, &columns[0].tasks), (TaskState::Done, &vec![1]));
            assert_eq!((columns[1].state, &columns[1].tasks), (TaskState::Todo, &vec![0]));
        }
        other => panic!("{other:?}"),
    }
    assert_eq!(
        error(after_one(call(), Outcome::Listed { states: None })),
        (500, "board listing failed".to_string())
    );
    let bad = Call::Board { params: BoardParams { states: Some("Nope".to_string()) } };
    assert_eq!(error(begin(bad, context()).1), (400, "unknown state 'Nope'".to_string()));
}

#[test]
fn task_ids_are_uuids() {
    assert_eq!(task_id(TASK).unwrap(), TASK_BITS);
    assert_eq!(task_id("67E5504410B1426F9247BB680E5FE0C8").unwrap(), TASK_BITS);
    for text in ["", "17", "67e55044-10b1-426f-9247-bb680e5fe0c", "../etc/passwd"] {
        let refused = task_id(text).unwrap_err();
        assert_eq!(refused.status.code(), 404);
        assert!(matches!(refused.body, Body::Error { message } if message == "task not found"));
    }
    assert_eq!(named_task(Some(3)).unwrap(), 3);
}

#[test]
fn paths_that_name_no_task_are_404() {
    let id = || "not-a-uuid".to_string();
    for call in [
        Call::GetTask { id: id() },
        Call::ClaimTask { id: id() },
        Call::TransitionTask {
            id: id(),
            body: TransitionBody { to: TaskState::Done, reason: None },
        },
        Call::BlockTask { id: id(), body: BlockBody { reason: String::new() } },
    ] {
        assert_eq!(error(begin(call, context()).1), (404, "task not found".to_string()));
    }
}

#[test]
fn fetching_a_task() {
    let call = || Call::GetTask { id: TASK.to_string() };
    let (_, step) = begin(call(), context());
    assert!(matches!(step, Step::FetchTask { id: TASK_BITS }));
    let found = answer(after_one(call(), Outcome::Accepted { accepted: true }));
    assert_eq!(found.status, Status::Success);
    assert!(matches!(found.body, Body::Task));
    assert_eq!(
        error(after_one(call(), Outcome::Accepted { accepted: false })),
        (404, "task not found".to_string())
    );
}

#[test]
fn creating_a_task() {
    let call = || Call::CreateTask {
        body: CreateTaskBody { title: "t".to_string(), depends_on: vec![1, 2] },
    };
    match begin(call(), context()).1 {
        Step::CreateTask { task } => {
            assert_eq!((task.title.as_str(), task.actor.as_str()), ("t", "human:alice"));
            assert_eq!(task.depends_on, vec![1, 2]);
        }
        other => panic!("{other:?}"),
    }
    let created = answer(after_one(call(), Outcome::Created { id: Some(9) }));
    assert_eq!(created.status.code(), 201);
    assert!(matches!(created.body, Body::TaskId { id: 9 }));
    assert_eq!(
        error(after_one(call(), Outcome::Created { id: None })),
        (400, "task creation failed".to_string())
    );
}

#[test]
fn changing_a_task() {
    let transition = || Call::TransitionTask {
        id: TASK.to_string(),
        body: TransitionBody { to: TaskState::Done, reason: Some("why".to_string()) },
    };
    match begin(transition(), context()).1 {
        Step::TransitionTask { id, transition } => {
            assert_eq!(id, TASK_BITS);
            assert_eq!(transition.to, TaskState::Done);
            assert_eq!(transition.actor, "human:alice");
            assert_eq!(transition.reason.as_deref(), Some("why"));
        }
        other => panic!("{other:?}"),
    }
    let claim = || Call::ClaimTask { id: TASK.to_string() };
    assert!(matches!(
        begin(claim(), context()).1,
        Step::ClaimTask { id: TASK_BITS, actor } if actor == "human:alice"
    ));
    let block = || Call::BlockTask {
        id: TASK.to_string(),
        body: BlockBody { reason: "stuck".to_string() },
    };
    match begin(block(), context()).1 {
        Step::BlockTask { block, .. } => {
            assert_eq!((block.actor.as_str(), block.reason.as_str()), ("human:alice", "stuck"));
            assert_eq!(block.blocked_by, "human:alice");
        }
        other => panic!("{other:?}"),
    }
    for call in [transition(), claim(), block()] {
        acknowledged(after_one(call, Outcome::Accepted { accepted: true }));
    }
    let refused = |call| error(after_one(call, Outcome::Accepted { accepted: false }));
    assert_eq!(refused(transition()), (400, "transition rejected".to_string()));
    assert_eq!(refused(claim()), (409, "claim rejected".to_string()));
    assert_eq!(refused(block()), (400, "block rejected".to_string()));
}

#[test]
fn actor_without_a_user() {
    assert_eq!(actor_of(&anonymous()), "human:unknown");
    assert_eq!(actor_of(&context()), "human:alice");
}

#[test]
fn reading_the_configuration() {
    let read = |read| after_one(Call::GetConfig, Outcome::ConfigRead { read });
    let config = ConfigDocument {
        toml: "[security]\n".to_string(),
        security: SecuritySection {
            file_read_prefixes: vec!["/r".to_string()],
            file_write_prefixes: vec!["/w".to_string(), "/x".to_string()],
            network_allowlist: vec![],
            allow_shell: false,
            allow_git: true,
        },
    };
    let shown = answer(read(ConfigRead::Rendered { config }));
    assert_eq!(shown.status, Status::Success);
    match shown.body {
        Body::Config { config } => {
            assert_eq!(config.toml, "[security]\n");
            assert_eq!(config.security.file_read_prefixes, vec!["/r"]);
            assert_eq!(config.security.file_write_prefixes, vec!["/w", "/x"]);
            assert!(config.security.network_allowlist.is_empty());
            assert!(!config.security.allow_shell && config.security.allow_git);
        }
        other => panic!("{other:?}"),
    }
    assert_eq!(error(read(ConfigRead::LoadFailed)), (500, "config load failed".to_string()));
    assert_eq!(
        error(read(ConfigRead::SerialiseFailed)),
        (500, "config serialise failed".to_string())
    );
}

#[test]
fn submitting_a_configuration() {
    let call = || Call::PutConfig { text: "toml".to_string() };
    let (progress, step) = begin(call(), context());
    assert!(matches!(step, Step::ParseConfig { text } if text == "toml"));
    let (progress, step) = progress.follow(Outcome::Checked { refusal: None });
    assert!(matches!(step, Step::ValidateConfig));
    let (progress, step) = progress.follow(Outcome::Checked { refusal: None });
    assert!(matches!(step, Step::SaveConfig));
    acknowledged(progress.follow(Outcome::Accepted { accepted: true }).1);
}

#[test]
fn refused_configurations_are_recorded_with_their_detail() {
    let refusal = || Outcome::Checked { refusal: Some("secret detail".to_string()) };
    let call = || Call::PutConfig { text: String::new() };
    let (parsing, _) = begin(call(), context());
    let (validating, _) = begin(call(), context()).0.follow(Outcome::Checked { refusal: None });
    for (progress, what) in [(parsing, "parse"), (validating, "validation")] {
        let (progress, step) = progress.follow(refusal());
        match step {
            Step::Record { decision } => {
                assert!(!decision.allowed);
                assert_eq!(decision.detail, format!("config {what} rejected: secret detail"));
            }
            other => panic!("{other:?}"),
        }
        let (_, step) = progress.follow(Outcome::Done);
        assert_eq!(error(step), (400, "invalid configuration".to_string()));
    }
}

#[test]
fn configuration_that_cannot_be_saved_is_500() {
    let (progress, _) = begin(Call::PutConfig { text: String::new() }, context());
    let (progress, _) = progress.follow(Outcome::Checked { refusal: None });
    let (progress, _) = progress.follow(Outcome::Checked { refusal: None });
    let (_, step) = progress.follow(Outcome::Accepted { accepted: false });
    assert_eq!(error(step), (500, "config save failed".to_string()));
}

#[test]
fn plugin_listing_is_complete_and_in_order() {
    let manifest = |name: &str, enabled| PluginManifest {
        name: name.to_string(),
        version: "1.2.3".to_string(),
        class: "Safe".to_string(),
        enabled,
        capabilities: "[]".to_string(),
    };
    let plugins = Some(vec![manifest("b", true), manifest("a", false), manifest("b", true)]);
    let listed = answer(after_one(Call::Plugins, Outcome::PluginsRead { plugins }));
    assert_eq!(listed.status.code(), 200);
    match listed.body {
        Body::Plugins { plugins } => {
            let shown: Vec<_> = plugins
                .iter()
                .map(|plugin| (plugin.name.as_str(), plugin.version.as_str(), plugin.enabled))
                .collect();
            assert_eq!(
                shown,
                vec![("b", "1.2.3", true), ("a", "1.2.3", false), ("b", "1.2.3", true)]
            );
            assert_eq!(plugins[1].class, "Safe");
            assert_eq!(plugins[1].capabilities, "[]");
        }
        other => panic!("{other:?}"),
    }
    let unloaded = after_one(Call::Plugins, Outcome::PluginsRead { plugins: None });
    assert_eq!(error(unloaded), (500, "config load failed".to_string()));
}

#[test]
fn logs_and_audit() {
    let read = |read| after_one(Call::Logs, Outcome::LogRead { read });
    assert!(matches!(answer(read(LogRead::NotConfigured)).body, Body::NoLogs));
    assert!(matches!(answer(read(LogRead::Entries)).body, Body::Logs));
    assert_eq!(error(read(LogRead::Failed)), (500, "log read failed".to_string()));
    for verified in [true, false] {
        let answer = answer(after_one(Call::Audit, Outcome::Chain { verified }));
        assert_eq!(answer.status, Status::Success);
        assert!(matches!(answer.body, Body::Audit { chain_verified } if chain_verified == verified));
    }
}

#[test]
fn error_bodies_are_json_objects() {
    assert_eq!(error_body("forbidden"), "{\"error\":\"forbidden\"}");
    assert_eq!(error_body("a \"b\"\n"), "{\"error\":\"a \\\"b\\\"\\n\"}");
    assert_eq!(frame_error("null"), "{\"error\":null}");
    let value: serde_json::Value =
        serde_json::from_str(&error_body("unknown state '\u{7}'")).unwrap();
    assert_eq!(value["error"], "unknown state '\u{7}'");
}
