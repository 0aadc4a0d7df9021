use runkit::{
    ActionKind, CommandOutcome, CommandOutput, DesiredState, DirEntry, Effect, HelperContext,
    HelperError, HelperResponse, OutcomeData, Progress, Reply, ResponseStatus, ServiceLogEntry,
    ServiceManager, ServiceSnapshot, SnapshotDesiredState, SnapshotRuntimeState,
};
use std::collections::{BTreeMap, BTreeSet};

/// A host that lives in memory: it answers every effect from what it holds
/// and keeps a record of the effects it was asked for.
#[derive(Default)]
struct Host {
    paths: BTreeSet<String>,
    links: BTreeMap<String, String>,
    directories: BTreeMap<String, Vec<(Option<String>, bool)>>,
    texts: BTreeMap<String, String>,
    commands: BTreeMap<(String, String, String), (bool, Option<i32>, String, String, String)>,
    logs: BTreeMap<String, Vec<String>>,
    decision: Option<(bool, bool)>,
    asked: Vec<Effect>,
}

impl Host {
    fn answer(&mut self, effect: Effect) -> Reply {
        let reply = match &effect {
            Effect::ListDirectory { path } => match self.directories.get(path) {
                Some(entries) => Reply::Entries(
                    entries
                        .iter()
                        .map(|(name, is_dir)| DirEntry { name: name.clone(), is_dir: *is_dir })
                        .collect(),
                ),
                None => Reply::Failed("No such file or directory".to_string()),
            },
            Effect::CheckExists { path } => Reply::Exists(self.paths.contains(path)),
            Effect::ReadText { path } => Reply::Text(self.texts.get(path).cloned()),
            Effect::RunCommand { program, subcommand, service } => {
                match self.commands.get(&(program.clone(), subcommand.clone(), service.clone())) {
                    Some((success, code, status, stdout, stderr)) => Reply::Output(CommandOutput {
                        success: *success,
                        code: *code,
                        status: status.clone(),
                        stdout: stdout.clone(),
                        stderr: stderr.clone(),
                    }),
                    None => Reply::Failed("command not found".to_string()),
                }
            }
            Effect::CreateSymlink { target, link } => {
                if self.paths.contains(link) {
                    Reply::Failed("File exists".to_string())
                } else {
                    self.paths.insert(link.clone());
                    self.links.insert(link.clone(), target.clone());
                    Reply::Done
                }
            }
            Effect::RemoveFile { path } => {
                if self.paths.remove(path) {
                    self.links.remove(path);
                    Reply::Done
                } else {
                    Reply::Failed("No such file or directory".to_string())
                }
            }
            Effect::TailLog { service, lines } => Reply::Log(self.logs.get(service).map(|all| {
                let skip = all.len().saturating_sub(*lines);
                all[skip..]
                    .iter()
                    .map(|line| ServiceLogEntry {
                        timestamp_unix: Some(7),
                        timestamp_nanos: None,
                        timestamp_raw: None,
                        message: line.clone(),
                    })
                    .collect()
            })),
            Effect::CheckAuthorization { .. } => match self.decision {
                Some((is_authorized, is_challenge)) => {
                    Reply::Authorization { is_authorized, is_challenge }
                }
                None => Reply::Failed("polkit check failed: no authority".to_string()),
            },
        };
        self.asked.push(effect);
        reply
    }

    fn command(&mut self, subcommand: &str, service: &str, success: bool, stdout: &str, stderr: &str) {
        let (code, status) = if success { (0, "exit status: 0") } else { (1, "exit status: 1") };
        self.commands.insert(
            ("sv".to_string(), subcommand.to_string(), service.to_string()),
            (success, Some(code), status.to_string(), stdout.to_string(), stderr.to_string()),
        );
    }
}

fn context() -> HelperContext {
    HelperContext::new(ServiceManager::new("/defs", "/on"))
}

fn drive(context: &HelperContext, host: &mut Host, start: Progress) -> Result<CommandOutcome, HelperError> {
    let mut progress = start;
    loop {
        match progress {
            Progress::Finished(result) => return result,
            Progress::Waiting(task, effect) => {
                let reply = host.answer(effect);
                progress = context.resume(task, reply);
            }
        }
    }
}

fn services(outcome: CommandOutcome) -> Vec<ServiceSnapshot> {
    match outcome.data {
        Some(OutcomeData::Services(services)) => services,
        other => panic!("unexpected data: {:?}", other),
    }
}

/// A host with the definitions `a`, `b` and `.hidden`, of which `b` is
/// enabled.
fn small_host() -> Host {
    let mut host = Host::default();
    host.directories.insert(
        "/defs".to_string(),
        vec![
            (Some("b".to_string()), true),
            (Some(".hidden".to_string()), true),
            (Some("a".to_string()), true),
            (Some("notes.txt".to_string()), false),
            (None, true),
        ],
    );
    for path in ["/defs/a", "/defs/b", "/defs/.hidden", "/on/b"] {
        host.paths.insert(path.to_string());
    }
    host.links.insert("/on/b".to_string(), "/defs/b".to_string());
    host.command("status", "a", true, "down: a: 5s, normally up\n", "");
    host.command("status", "b", true, "run: b: (pid 12) 100s\n", "");
    host.texts.insert("/defs/a/README".to_string(), "\n  Service A \r\nmore\n".to_string());
    host.texts.insert("/defs/b/description".to_string(), "   \n".to_string());
    host
}

#[test]
fn enable_without_definition_fails() {
    let context = context();
    let mut host = Host::default();
    let result = drive(&context, &mut host, context.perform_action(ActionKind::Enable, "web"));
    assert_eq!(
        result,
        Err(HelperError::DefinitionMissing {
            service: "web".to_string(),
            path: "/defs/web".to_string()
        })
    );
    assert_eq!(host.asked, vec![Effect::CheckExists { path: "/defs/web".to_string() }]);
    assert!(host.links.is_empty());
}

#[test]
fn enable_already_enabled_fails() {
    let context = context();
    let mut host = small_host();
    let result = drive(&context, &mut host, context.perform_action(ActionKind::Enable, "b"));
    assert_eq!(result, Err(HelperError::AlreadyEnabled("b".to_string())));
    assert_eq!(host.links.len(), 1);
    assert!(host.asked.iter().all(|effect| matches!(effect, Effect::CheckExists { .. })));
}

#[test]
fn enable_creates_exactly_one_link() {
    let context = context();
    let mut host = small_host();
    let result = drive(&context, &mut host, context.perform_action(ActionKind::Enable, "a"));
    assert_eq!(result, Ok(CommandOutcome::message("Enabled service a".to_string())));
    assert_eq!(host.links.get("/on/a"), Some(&"/defs/a".to_string()));
    assert_eq!(host.links.len(), 2);
    assert_eq!(
        host.asked,
        vec![
            Effect::CheckExists { path: "/defs/a".to_string() },
            Effect::CheckExists { path: "/on/a".to_string() },
            Effect::CreateSymlink { target: "/defs/a".to_string(), link: "/on/a".to_string() },
        ]
    );
}

#[test]
fn disable_not_enabled_fails() {
    let context = context();
    let mut host = small_host();
    let result = drive(&context, &mut host, context.perform_action(ActionKind::Disable, "a"));
    assert_eq!(result, Err(HelperError::NotEnabled("a".to_string())));
    assert_eq!(host.asked, vec![Effect::CheckExists { path: "/on/a".to_string() }]);
}

#[test]
fn disable_removes_link_and_list_reports_manual() {
    let context = context();
    let mut host = small_host();
    let result = drive(&context, &mut host, context.perform_action(ActionKind::Disable, "b"));
    assert_eq!(result, Ok(CommandOutcome::message("Disabled service b".to_string())));
    assert!(!host.paths.contains("/on/b"));
    assert!(host.links.is_empty());
    let listed = services(drive(&context, &mut host, context.list()).unwrap());
    let b = listed.iter().find(|service| service.name == "b").unwrap();
    assert_eq!(b.desired_state, SnapshotDesiredState::Manual);
    assert!(!b.enabled);
}

#[test]
fn list_reports_visible_services_in_order() {
    let context = context();
    let mut host = small_host();
    let listed = services(drive(&context, &mut host, context.list()).unwrap());
    assert_eq!(listed.len(), 2);
    assert_eq!(
        listed[0],
        ServiceSnapshot {
            name: "a".to_string(),
            definition_path: "/defs/a".to_string(),
            enabled: false,
            desired_state: SnapshotDesiredState::Manual,
            runtime_state: SnapshotRuntimeState::Down { since_seconds: 5, normally_up: true },
            description: Some("Service A ".to_string()),
        }
    );
    assert_eq!(
        listed[1],
        ServiceSnapshot {
            name: "b".to_string(),
            definition_path: "/defs/b".to_string(),
            enabled: true,
            desired_state: SnapshotDesiredState::AutoStart,
            runtime_state: SnapshotRuntimeState::Running { pid: 12, uptime_seconds: 100 },
            description: None,
        }
    );
    // Nothing was asked about the hidden entry, the file or the nameless one.
    assert!(host.asked.iter().all(|effect| match effect {
        Effect::CheckExists { path } => path == "/on/a" || path == "/on/b",
        Effect::RunCommand { service, .. } => service == "a" || service == "b",
        Effect::CreateSymlink { .. } | Effect::RemoveFile { .. } => false,
        _ => true,
    }));
}

#[test]
fn list_orders_names_by_their_bytes() {
    let context = context();
    let mut host = Host::default();
    let names = ["b", "a_b", "a", "B", "a-b", "a.b", "a0", "\u{e9}"];
    host.directories.insert(
        "/defs".to_string(),
        names.iter().map(|name| (Some(name.to_string()), true)).collect(),
    );
    for name in names {
        host.command("status", name, true, "run: x: (pid 1) 1s", "");
    }
    // The last name is no valid service name: the enumeration fails on it.
    let result = drive(&context, &mut host, context.list());
    assert_eq!(result, Err(HelperError::InvalidService("\u{e9}".to_string())));
    host.directories.get_mut("/defs").unwrap().pop();
    let listed = services(drive(&context, &mut host, context.list()).unwrap());
    let order: Vec<&str> = listed.iter().map(|service| service.name.as_str()).collect();
    assert_eq!(order, vec!["B", "a", "a-b", "a.b", "a0", "a_b", "b"]);
}

#[test]
fn list_fails_as_a_whole() {
    let context = context();
    let mut host = Host::default();
    let result = drive(&context, &mut host, context.list());
    assert_eq!(
        result,
        Err(HelperError::Io {
            path: "/defs".to_string(),
            source: "No such file or directory".to_string()
        })
    );
    let mut host = small_host();
    host.command("status", "b", false, "", "warning: b: unable to open supervise/ok\n");
    let result = drive(&context, &mut host, context.list());
    assert_eq!(
        result,
        Err(HelperError::SvFailure {
            command: "status".to_string(),
            service: "b".to_string(),
            message: "warning: b: unable to open supervise/ok".to_string(),
        })
    );
    let mut host = small_host();
    host.commands.remove(&("sv".to_string(), "status".to_string(), "a".to_string()));
    let result = drive(&context, &mut host, context.list());
    assert_eq!(
        result,
        Err(HelperError::Io { path: "sv".to_string(), source: "command not found".to_string() })
    );
}

#[test]
fn empty_directory_lists_nothing() {
    let context = context();
    let mut host = Host::default();
    host.directories.insert("/defs".to_string(), vec![]);
    assert_eq!(services(drive(&context, &mut host, context.list()).unwrap()), vec![]);
    assert_eq!(host.asked.len(), 1);
}

#[test]
fn actions_go_to_the_supervisor() {
    let context = context();
    let cases = [
        (ActionKind::Start, "up"),
        (ActionKind::Stop, "down"),
        (ActionKind::Restart, "restart"),
        (ActionKind::Reload, "reload"),
        (ActionKind::Check, "check"),
        (ActionKind::Once, "once"),
    ];
    for (kind, subcommand) in cases {
        let mut host = Host::default();
        host.command(subcommand, "web", true, "", "");
        let result = drive(&context, &mut host, context.perform_action(kind, "web"));
        assert_eq!(
            result,
            Ok(CommandOutcome::message(format!("{subcommand} command executed for web")))
        );
        assert_eq!(
            host.asked,
            vec![Effect::RunCommand {
                program: "sv".to_string(),
                subcommand: subcommand.to_string(),
                service: "web".to_string()
            }]
        );
    }
}

#[test]
fn supervisor_output_becomes_the_message() {
    let context = context();
    let mut host = Host::default();
    host.command("up", "web", true, "  ok: run: web: (pid 3) 0s \n", "");
    let result = drive(&context, &mut host, context.perform_action(ActionKind::Start, "web"));
    assert_eq!(result, Ok(CommandOutcome::message("ok: run: web: (pid 3) 0s".to_string())));
}

#[test]
fn supervisor_failures_are_reported() {
    let context = context();
    let mut host = Host::default();
    host.command("down", "web", false, "", " timeout: web \n");
    let result = drive(&context, &mut host, context.perform_action(ActionKind::Stop, "web"));
    assert_eq!(
        result,
        Err(HelperError::SvFailure {
            command: "down".to_string(),
            service: "web".to_string(),
            message: "timeout: web".to_string()
        })
    );
    host.command("down", "web", false, "ignored", "");
    let result = drive(&context, &mut host, context.perform_action(ActionKind::Stop, "web"));
    assert_eq!(
        result,
        Err(HelperError::SvFailure {
            command: "down".to_string(),
            service: "web".to_string(),
            message: "exit status exit status: 1".to_string()
        })
    );
    // Anything on standard error is a failure, whatever the exit code.
    host.command("down", "web", true, "fine", "warning");
    let result = drive(&context, &mut host, context.perform_action(ActionKind::Stop, "web"));
    assert_eq!(
        result,
        Err(HelperError::SvFailure {
            command: "down".to_string(),
            service: "web".to_string(),
            message: "warning".to_string()
        })
    );
    // White space only is standard error too.
    host.command("down", "web", true, "fine", " \n");
    let result = drive(&context, &mut host, context.perform_action(ActionKind::Stop, "web"));
    assert_eq!(
        result,
        Err(HelperError::SvFailure {
            command: "down".to_string(),
            service: "web".to_string(),
            message: " \n".to_string()
        })
    );
    // A failed exit with nothing but white space on standard error is
    // described by the way the process ended.
    host.command("down", "web", false, "", "\n");
    let result = drive(&context, &mut host, context.perform_action(ActionKind::Stop, "web"));
    assert_eq!(
        result,
        Err(HelperError::SvFailure {
            command: "down".to_string(),
            service: "web".to_string(),
            message: "exit status exit status: 1".to_string()
        })
    );
    host.command("down", "web", false, "", "  gone \n");
    let result = drive(&context, &mut host, context.perform_action(ActionKind::Stop, "web"));
    assert_eq!(
        result,
        Err(HelperError::SvFailure {
            command: "down".to_string(),
            service: "web".to_string(),
            message: "gone".to_string()
        })
    );
    let mut host = Host::default();
    let result = drive(&context, &mut host, context.perform_action(ActionKind::Stop, "web"));
    assert_eq!(
        result,
        Err(HelperError::Io { path: "sv".to_string(), source: "command not found".to_string() })
    );
}

#[test]
fn invalid_names_are_refused_before_any_effect() {
    let context = context();
    let kinds = [
        ActionKind::Start,
        ActionKind::Stop,
        ActionKind::Restart,
        ActionKind::Reload,
        ActionKind::Check,
        ActionKind::Once,
        ActionKind::Enable,
        ActionKind::Disable,
    ];
    for kind in kinds {
        for name in ["", "../bad", "a/b", "a b"] {
            assert_eq!(
                context.perform_action(kind, name),
                Progress::Finished(Err(HelperError::InvalidService(name.to_string())))
            );
        }
    }
    assert_eq!(
        context.describe("a/b"),
        Progress::Finished(Err(HelperError::InvalidService("a/b".to_string())))
    );
    assert_eq!(
        context.logs("", 3),
        Progress::Finished(Err(HelperError::InvalidService(String::new())))
    );
}

#[test]
fn describe_reads_the_first_file_that_says_something() {
    let context = context();
    let mut host = small_host();
    let result = drive(&context, &mut host, context.describe("a")).unwrap();
    assert_eq!(
        result.data,
        Some(OutcomeData::Description {
            service: "a".to_string(),
            description: Some("Service A ".to_string())
        })
    );
    assert_eq!(result.message, None);
    assert_eq!(
        host.asked,
        vec![
            Effect::ReadText { path: "/defs/a/description".to_string() },
            Effect::ReadText { path: "/defs/a/README".to_string() },
        ]
    );
    let mut host = small_host();
    let result = drive(&context, &mut host, context.describe("b")).unwrap();
    assert_eq!(
        result.data,
        Some(OutcomeData::Description { service: "b".to_string(), description: None })
    );
    assert_eq!(
        host.asked,
        vec![
            Effect::ReadText { path: "/defs/b/description".to_string() },
            Effect::ReadText { path: "/defs/b/README".to_string() },
            Effect::ReadText { path: "/defs/b/README.md".to_string() },
        ]
    );
    host.texts.insert("/defs/b/README.md".to_string(), "# B\n".to_string());
    let result = drive(&context, &mut host, context.describe("b")).unwrap();
    assert_eq!(
        result.data,
        Some(OutcomeData::Description {
            service: "b".to_string(),
            description: Some("# B".to_string())
        })
    );
}

#[test]
fn logs_ask_for_at_least_one_line() {
    let context = context();
    let mut host = Host::default();
    host.logs.insert("web".to_string(), vec!["one".to_string(), "two".to_string(), "three".to_string()]);
    let result = drive(&context, &mut host, context.logs("web", 0)).unwrap();
    assert_eq!(host.asked, vec![Effect::TailLog { service: "web".to_string(), lines: 1 }]);
    match result.data {
        Some(OutcomeData::Log(lines)) => {
            assert_eq!(lines.len(), 1);
            assert_eq!(lines[0].message, "three");
            assert_eq!(lines[0].unix_seconds, Some(7));
            assert_eq!(lines[0].nanos, None);
            assert_eq!(lines[0].raw, None);
        }
        other => panic!("unexpected data: {:?}", other),
    }
    let result = drive(&context, &mut host, context.logs("web", 2)).unwrap();
    match result.data {
        Some(OutcomeData::Log(lines)) => {
            let messages: Vec<&str> = lines.iter().map(|line| line.message.as_str()).collect();
            assert_eq!(messages, vec!["two", "three"]);
        }
        other => panic!("unexpected data: {:?}", other),
    }
    let result = drive(&context, &mut host, context.logs("db", 5));
    assert_eq!(result, Err(HelperError::LogUnavailable("db".to_string())));
}

#[test]
fn unknown_actions_never_reach_the_authority() {
    let context = context();
    assert_eq!(
        context.authorize("explode", "web", false),
        Progress::Finished(Err(HelperError::UnsupportedAction("explode".to_string())))
    );
    assert_eq!(
        HelperError::UnsupportedAction("explode".to_string()).message(),
        "Unsupported action 'explode'"
    );
}

#[test]
fn the_authority_is_asked_under_the_right_action() {
    let context = context();
    for (allow_cached, action_id) in [
        (false, "tech.geektoshi.Runkit.require_password"),
        (true, "tech.geektoshi.Runkit.cached"),
    ] {
        match context.authorize("restart", "web", allow_cached) {
            Progress::Waiting(_, effect) => assert_eq!(
                effect,
                Effect::CheckAuthorization {
                    action_id: action_id.to_string(),
                    service: "web".to_string(),
                    operation: "restart".to_string()
                }
            ),
            other => panic!("unexpected progress: {:?}", other),
        }
    }
}

#[test]
fn only_an_authorized_caller_acts() {
    let context = context();
    let mut host = small_host();
    host.decision = Some((false, false));
    let result = drive(&context, &mut host, context.authorize("enable", "a", false));
    assert_eq!(result, Err(HelperError::AuthorizationDenied));
    assert_eq!(host.asked.len(), 1);
    host.decision = Some((false, true));
    let result = drive(&context, &mut host, context.authorize("enable", "a", false));
    assert_eq!(result, Err(HelperError::AuthorizationChallenged));
    host.decision = None;
    let result = drive(&context, &mut host, context.authorize("enable", "a", false));
    assert_eq!(result, Err(HelperError::Other("polkit check failed: no authority".to_string())));
    assert!(host.links.get("/on/a").is_none());
    host.decision = Some((true, false));
    let result = drive(&context, &mut host, context.authorize("enable", "a", true));
    assert_eq!(result, Ok(CommandOutcome::message("Enabled service a".to_string())));
    assert_eq!(host.links.get("/on/a"), Some(&"/defs/a".to_string()));
    // The name is checked once the caller is authorized.
    let result = drive(&context, &mut host, context.authorize("start", "a/b", true));
    assert_eq!(result, Err(HelperError::InvalidService("a/b".to_string())));
}

#[test]
fn a_reply_that_was_not_asked_for_ends_the_request() {
    let context = context();
    match context.perform_action(ActionKind::Enable, "a") {
        Progress::Waiting(task, _) => assert_eq!(
            context.resume(task, Reply::Done),
            Progress::Finished(Err(HelperError::Other("unexpected reply from the host".to_string())))
        ),
        other => panic!("unexpected progress: {:?}", other),
    }
    match context.list() {
        Progress::Waiting(task, _) => assert_eq!(
            context.resume(task, Reply::Exists(true)),
            Progress::Finished(Err(HelperError::Other("unexpected reply from the host".to_string())))
        ),
        other => panic!("unexpected progress: {:?}", other),
    }
}

#[test]
fn link_failures_are_reported_with_the_path() {
    let context = context();
    match context.perform_action(ActionKind::Enable, "a") {
        Progress::Waiting(task, _) => match context.resume(task, Reply::Exists(true)) {
            Progress::Waiting(task, _) => match context.resume(task, Reply::Exists(false)) {
                Progress::Waiting(task, _) => assert_eq!(
                    context.resume(task, Reply::Failed("Permission denied".to_string())),
                    Progress::Finished(Err(HelperError::Io {
                        path: "/on/a".to_string(),
                        source: "Permission denied".to_string()
                    }))
                ),
                other => panic!("unexpected progress: {:?}", other),
            },
            other => panic!("unexpected progress: {:?}", other),
        },
        other => panic!("unexpected progress: {:?}", other),
    }
}

#[test]
fn every_failure_has_its_exit_code_and_message() {
    let cases = [
        (HelperError::InvalidService("a b".to_string()), 2, "invalid service name: a b"),
        (
            HelperError::DefinitionMissing { service: "web".to_string(), path: "/defs/web".to_string() },
            3,
            "service definition missing: web (/defs/web)",
        ),
        (HelperError::AlreadyEnabled("web".to_string()), 4, "service already enabled: web"),
        (HelperError::NotEnabled("web".to_string()), 5, "service is not enabled: web"),
        (
            HelperError::SvFailure {
                command: "up".to_string(),
                service: "web".to_string(),
                message: "no".to_string(),
            },
            6,
            "command `up` failed for web: no",
        ),
        (
            HelperError::Io { path: "/on/\"web\"".to_string(), source: "denied".to_string() },
            7,
            "I/O error at \"/on/\\\"web\\\"\": denied",
        ),
        (HelperError::LogUnavailable("web".to_string()), 1, "log stream unavailable for web"),
        (HelperError::AuthorizationChallenged, 1, "Authentication was dismissed or failed"),
        (HelperError::AuthorizationDenied, 1, "Authorization denied"),
        (HelperError::UnsupportedAction("x".to_string()), 1, "Unsupported action 'x'"),
        (HelperError::Other("odd".to_string()), 1, "odd"),
    ];
    for (error, code, message) in cases {
        assert_eq!(error.exit_code(), code);
        assert_eq!(error.message(), message);
        let (response, exit) = HelperResponse::from_result(Err(error));
        assert_eq!(exit, code);
        assert_eq!(response, HelperResponse::error(message.to_string()));
        assert_eq!(response.status, ResponseStatus::Failed);
        assert_eq!(response.status.as_str(), "error");
        assert_eq!(response.data, None);
    }
}

#[test]
fn a_success_keeps_message_and_data() {
    let outcome = CommandOutcome::with(
        Some("done".to_string()),
        Some(OutcomeData::Description { service: "a".to_string(), description: None }),
    );
    let (response, exit) = HelperResponse::from_result(Ok(outcome));
    assert_eq!(exit, 0);
    assert_eq!(response.status, ResponseStatus::Succeeded);
    assert_eq!(response.status.as_str(), "ok");
    assert_eq!(response.message, Some("done".to_string()));
    assert_eq!(
        response.data,
        Some(OutcomeData::Description { service: "a".to_string(), description: None })
    );
    let response = HelperResponse::ok_with(CommandOutcome::message("m".to_string()));
    assert_eq!(response.message, Some("m".to_string()));
    assert_eq!(response.data, None);
}

#[test]
fn desired_state_follows_the_marker() {
    assert_eq!(DesiredState::from_enabled(true), DesiredState::AutoStart);
    assert_eq!(DesiredState::from_enabled(false), DesiredState::Manual);
}

#[test]
fn default_context_serves_the_usual_places() {
    let context = HelperContext::default();
    assert_eq!(context.manager().definitions_dir(), "/etc/sv");
    match context.perform_action(ActionKind::Disable, "web") {
        Progress::Waiting(_, effect) => {
            assert_eq!(effect, Effect::CheckExists { path: "/var/service/web".to_string() })
        }
        other => panic!("unexpected progress: {:?}", other),
    }
}
