//! Startup, in each of its modes, against an in-memory machine.

use wyrtloom_dashboard::boot::{start, BootEvent, BootStep, Bound, KeyFile, Options};
use wyrtloom_dashboard::startup::IpAddress;
use wyrtloom_dashboard::users::Role;

struct World {
    ip: Option<IpAddress>,
    key_file: Option<Vec<u8>>,
    key_appears: Option<Vec<u8>>,
    audit_file: Option<String>,
    audit_opens: bool,
    security_opens: bool,
    chain_verifies: bool,
    self_check_passes: bool,
    password: Option<String>,
    policy_loads: bool,
    steps: Vec<&'static str>,
    users: Vec<(String, String, Vec<Role>)>,
    denies_all: bool,
}

enum End {
    Serve { routes: usize, origins: Vec<String> },
    Exit { output: Option<String> },
    Abort { message: String },
}

impl World {
    fn new() -> World {
        World {
            ip: Some(IpAddress::V4 { octets: [127, 0, 0, 1] }),
            key_file: None,
            key_appears: None,
            audit_file: None,
            audit_opens: true,
            security_opens: true,
            chain_verifies: true,
            self_check_passes: true,
            password: None,
            policy_loads: true,
            steps: Vec::new(),
            users: Vec::new(),
            denies_all: false,
        }
    }

    fn run(&mut self, options: Options) -> End {
        let (mut boot, mut step) = start(options);
        loop {
            let event = match step {
                BootStep::ParseBind { bind } => BootEvent::Address {
                    address: self.ip.map(|ip| Bound { ip, text: bind }),
                },
                BootStep::ReadKey => BootEvent::Key {
                    file: match &self.key_file {
                        Some(bytes) => KeyFile::Present { bytes: bytes.clone() },
                        None => KeyFile::Missing,
                    },
                },
                BootStep::DrawKey => BootEvent::Drawn { key: [8; 32] },
                BootStep::CreateKeyFile { bytes, mode } => {
                    assert_eq!(mode, 0o600);
                    if let Some(bytes) = self.key_appears.take() {
                        self.key_file = Some(bytes);
                        BootEvent::Failed { detail: "creating session key file".to_string() }
                    } else {
                        self.steps.push("generate");
                        self.key_file = Some(bytes.to_vec());
                        BootEvent::Done
                    }
                }
                BootStep::LoadPolicy => BootEvent::Policy { loaded: self.policy_loads },
                BootStep::OpenSecurity { key, deny_all, audit_file } => {
                    // Without a key file the key is one that was only drawn.
                    match &self.key_file {
                        Some(kept) => assert_eq!(kept, &key[..]),
                        None => assert_eq!(key, [8; 32]),
                    }
                    self.denies_all = deny_all;
                    match audit_file {
                        Some(path) if self.audit_opens => {
                            self.audit_file = Some(path);
                            BootEvent::Done
                        }
                        Some(_) => BootEvent::Failed { detail: "no such directory".to_string() },
                        None if self.security_opens => BootEvent::Done,
                        None => BootEvent::Failed { detail: "bad policy".to_string() },
                    }
                }
                BootStep::SelfCheck => {
                    if self.self_check_passes {
                        BootEvent::Done
                    } else {
                        BootEvent::Failed { detail: "weak".to_string() }
                    }
                }
                BootStep::VerifyChain => {
                    self.steps.push("verify");
                    if self.chain_verifies {
                        BootEvent::Done
                    } else {
                        BootEvent::Failed { detail: "entry 3".to_string() }
                    }
                }
                BootStep::OpenStore => {
                    self.steps.push("store");
                    BootEvent::Done
                }
                BootStep::IssueBootstrapKey => BootEvent::Issued { key: "b00t".to_string() },
                BootStep::ReadAdminPassword => {
                    BootEvent::Password { password: self.password.clone() }
                }
                BootStep::CreateUser { username, password, roles } => {
                    self.users.push((username, password, roles));
                    BootEvent::Done
                }
                BootStep::OpenPlugins => {
                    self.steps.push("plugins");
                    BootEvent::Done
                }
                BootStep::EnsureCollection { collection } => {
                    assert_eq!(collection.name, "revoked_sessions");
                    BootEvent::Done
                }
                BootStep::Serve { routes, cors } => {
                    return End::Serve { routes: routes.len(), origins: cors.origins }
                }
                BootStep::Exit { output } => return End::Exit { output },
                BootStep::Abort { message } => return End::Abort { message },
            };
            let (next, asked) = boot.advance(event);
            boot = next;
            step = asked;
        }
    }
}

fn options() -> Options {
    Options {
        bind: "127.0.0.1:7878".to_string(),
        audit_file: Some("audit.jsonl".to_string()),
        cors_origins: vec![],
        allow_remote_http: false,
        issue_bootstrap_key: false,
        create_admin: None,
    }
}

fn abort(end: End) -> String {
    match end {
        End::Abort { message } => message,
        End::Exit { .. } => panic!("exited"),
        End::Serve { .. } => panic!("served"),
    }
}

#[test]
fn issue_bootstrap_key_does_not_create_audit_file() {
    let mut world = World::new();
    assert!(world.audit_file.is_none());
    let end = world.run(Options { issue_bootstrap_key: true, ..options() });
    match end {
        End::Exit { output } => {
            assert!(!output.unwrap().trim().is_empty(), "expected a bootstrap key on stdout")
        }
        other => panic!("provisioning failed: {}", abort(other)),
    }
    assert!(world.audit_file.is_none(), "provisioning must NOT open/create the audit file");
    assert!(!world.steps.contains(&"verify"));
}

#[test]
fn provisioning_works_without_audit_file_flag() {
    let mut world = World::new();
    let end = world.run(Options { issue_bootstrap_key: true, audit_file: None, ..options() });
    assert!(matches!(end, End::Exit { output: Some(key) } if !key.trim().is_empty()));
}

#[test]
fn create_admin_does_not_grow_audit_file() {
    let mut world = World::new();
    world.password = Some("correct-horse-battery-staple".to_string());
    let end = world.run(Options { create_admin: Some("alice".to_string()), ..options() });
    assert!(matches!(end, End::Exit { output: None }));
    assert!(world.audit_file.is_none(), "provisioning must not grow the audit file");
    assert_eq!(
        world.users,
        vec![(
            "alice".to_string(),
            "correct-horse-battery-staple".to_string(),
            vec![Role::Viewer, Role::Operator, Role::Admin],
        )]
    );
}

#[test]
fn provisioning_writes_to_the_store_alone() {
    let mut world = World::new();
    world.password = Some("pw".to_string());
    let issuing = Options { issue_bootstrap_key: true, ..options() };
    assert!(matches!(world.run(issuing), End::Exit { output: Some(_) }));
    let creating = Options { create_admin: Some("alice".to_string()), ..options() };
    assert!(matches!(world.run(creating), End::Exit { output: None }));
    assert_eq!(world.steps, vec!["store", "store"]);
    assert!(world.key_file.is_none() && world.audit_file.is_none());

    // A key file that is there is used, and left as it is.
    world.key_file = Some(vec![3; 32]);
    let issuing = Options { issue_bootstrap_key: true, ..options() };
    assert!(matches!(world.run(issuing), End::Exit { output: Some(_) }));
    assert_eq!(world.key_file, Some(vec![3; 32]));
    world.key_file = Some(vec![3; 31]);
    let issuing = Options { issue_bootstrap_key: true, ..options() };
    assert_eq!(abort(world.run(issuing)), "session key file must be exactly 32 bytes");
}

#[test]
fn provisioning_does_not_blame_the_audit_file() {
    let mut world = World::new();
    world.security_opens = false;
    let end = world.run(Options { issue_bootstrap_key: true, ..options() });
    assert_eq!(abort(end), "security module could not be opened: bad policy");
}

#[test]
fn admin_needs_a_password() {
    let mut world = World::new();
    let end = world.run(Options { create_admin: Some("alice".to_string()), ..options() });
    assert_eq!(abort(end), "WYRTLOOM_ADMIN_PASSWORD must be set to create an administrator");
    assert!(world.users.is_empty());
}

#[test]
fn issuing_a_key_comes_before_creating_an_admin() {
    let mut world = World::new();
    world.password = Some("pw".to_string());
    let end = world.run(Options {
        issue_bootstrap_key: true,
        create_admin: Some("alice".to_string()),
        ..options()
    });
    assert!(matches!(end, End::Exit { output: Some(_) }));
    assert!(world.users.is_empty());
}

#[test]
fn serving_opens_and_verifies_the_audit_chain() {
    let mut world = World::new();
    let origins = vec!["https://dashboard.example".to_string()];
    let end = world.run(Options { cors_origins: origins.clone(), ..options() });
    match end {
        End::Serve { routes, origins: allowed } => {
            assert_eq!(routes, 14);
            assert_eq!(allowed, origins);
        }
        other => panic!("{}", abort(other)),
    }
    assert_eq!(world.audit_file.as_deref(), Some("audit.jsonl"));
    assert_eq!(world.steps, vec!["generate", "verify", "store", "plugins"]);
    assert!(!world.denies_all);
}

#[test]
fn serving_fails_closed() {
    let mut world = World::new();
    let end = world.run(Options { audit_file: None, ..options() });
    assert_eq!(abort(end), "--audit-file is required to serve");

    let mut world = World::new();
    world.audit_opens = false;
    assert_eq!(
        abort(world.run(options())),
        "audit file is mandatory and could not be opened: no such directory"
    );

    let mut world = World::new();
    world.self_check_passes = false;
    assert_eq!(abort(world.run(options())), "security self-check failed: weak");

    let mut world = World::new();
    world.chain_verifies = false;
    assert_eq!(abort(world.run(options())), "audit chain verification failed: entry 3");
    assert!(!world.steps.contains(&"store"));
}

#[test]
fn transport_guard() {
    let mut world = World::new();
    world.ip = Some(IpAddress::V4 { octets: [0, 0, 0, 0] });
    let end = world.run(Options { bind: "0.0.0.0:80".to_string(), ..options() });
    assert_eq!(
        abort(end),
        "refusing to bind non-loopback address 0.0.0.0:80 over plain HTTP. Put a TLS-terminating \
         reverse proxy in front and keep this on loopback, or pass --insecure-allow-remote-http \
         to override (NOT recommended)."
    );
    assert!(world.steps.is_empty());

    let end = world.run(Options { allow_remote_http: true, ..options() });
    assert!(matches!(end, End::Serve { .. }));

    world.ip = None;
    let end = world.run(Options { bind: "nowhere".to_string(), ..options() });
    assert_eq!(abort(end), "invalid --bind address 'nowhere'");
}

#[test]
fn bad_key_files_stop_startup() {
    let mut world = World::new();
    world.key_file = Some(vec![1; 31]);
    assert_eq!(abort(world.run(options())), "session key file must be exactly 32 bytes");
    world.key_file = Some(vec![0; 32]);
    assert_eq!(abort(world.run(options())), "session key file is all-zero (invalid)");
    world.key_file = Some(vec![3; 32]);
    assert!(matches!(world.run(options()), End::Serve { .. }));
    assert!(!world.steps.contains(&"generate"));
}

#[test]
fn drawn_key_is_reused_by_the_next_start() {
    let mut world = World::new();
    assert!(matches!(world.run(options()), End::Serve { .. }));
    assert_eq!(world.key_file, Some(vec![8; 32]));
    world.steps.clear();
    assert!(matches!(world.run(options()), End::Serve { .. }));
    assert_eq!(world.key_file, Some(vec![8; 32]));
    assert!(!world.steps.contains(&"generate"));
}

#[test]
fn key_file_that_appears_in_between_is_kept() {
    let mut world = World::new();
    world.key_appears = Some(vec![5; 32]);
    assert_eq!(abort(world.run(options())), "creating session key file");
    assert_eq!(world.key_file, Some(vec![5; 32]));
    assert!(world.steps.is_empty());
}

#[test]
fn unreadable_key_file_stops_startup() {
    let (boot, _) = start(options());
    let address = Some(Bound {
        ip: IpAddress::V4 { octets: [127, 0, 0, 1] },
        text: "127.0.0.1:7878".to_string(),
    });
    let (boot, _) = boot.advance(BootEvent::Address { address });
    let file = KeyFile::Unreadable { detail: "denied".to_string() };
    let (_, step) = boot.advance(BootEvent::Key { file });
    assert!(
        matches!(step, BootStep::Abort { message } if message == "reading session key file: denied")
    );
}

#[test]
fn missing_policy_denies_all() {
    let mut world = World::new();
    world.policy_loads = false;
    assert!(matches!(world.run(options()), End::Serve { .. }));
    assert!(world.denies_all);
}

#[test]
fn invalid_origin_stops_startup() {
    let mut world = World::new();
    let end = world.run(Options { cors_origins: vec!["\n".to_string()], ..options() });
    assert_eq!(abort(end), "invalid --cors-origin '\n'");
}
