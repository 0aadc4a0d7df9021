use runkit::query::{candidate, capture_error, interpret_status, read_description};
use runkit::{
    Answer, CommandOutput, DesiredState, DirEntry, Effect, Query, QueryStep, Reply, ServiceError,
    ServiceLogEntry, ServiceManager, ServiceRuntimeState,
};

fn output(success: bool, code: Option<i32>, stdout: &str, stderr: &str) -> CommandOutput {
    CommandOutput {
        success,
        code,
        status: "signal: 9 (SIGKILL)".to_string(),
        stdout: stdout.to_string(),
        stderr: stderr.to_string(),
    }
}

#[test]
fn status_asks_the_supervisor() {
    let manager = ServiceManager::new("/defs", "/on").with_sv_command("/usr/bin/sv");
    match manager.status("sshd") {
        QueryStep::Ask(query, effect) => {
            assert_eq!(query, Query::Status { service: "sshd".to_string() });
            assert_eq!(
                effect,
                Effect::RunCommand {
                    program: "/usr/bin/sv".to_string(),
                    subcommand: "status".to_string(),
                    service: "sshd".to_string()
                }
            );
            let reply = Reply::Output(output(true, Some(0), "run: sshd: (pid 1234) 42s\n", ""));
            assert_eq!(
                manager.resume(query, reply),
                QueryStep::Done(Ok(Answer::State(ServiceRuntimeState::Running {
                    pid: 1234,
                    uptime: 42
                })))
            );
        }
        other => panic!("unexpected step: {:?}", other),
    }
    assert_eq!(
        manager.status("../bad"),
        QueryStep::Done(Err(ServiceError::InvalidServiceName("../bad".to_string())))
    );
}

#[test]
fn status_fails_on_standard_error() {
    let result = interpret_status("web", &output(true, Some(0), "run: web: (pid 1) 2s", " fail \n"));
    assert_eq!(
        result,
        Err(ServiceError::SvCommand { service: "web".to_string(), message: "fail".to_string() })
    );
}

#[test]
fn status_fails_on_empty_output() {
    let result = interpret_status("web", &output(false, Some(1), "", ""));
    assert_eq!(
        result,
        Err(ServiceError::SvCommand {
            service: "web".to_string(),
            message: "sv status returned no output (exit status 1)".to_string()
        })
    );
    let result = interpret_status("web", &output(false, Some(-15), "", ""));
    assert_eq!(
        result,
        Err(ServiceError::SvCommand {
            service: "web".to_string(),
            message: "sv status returned no output (exit status -15)".to_string()
        })
    );
    let result = interpret_status("web", &output(false, None, "", ""));
    assert_eq!(
        result,
        Err(ServiceError::SvCommand {
            service: "web".to_string(),
            message: "sv status returned no output (signal: 9 (SIGKILL))".to_string()
        })
    );
}

#[test]
fn any_standard_error_fails_the_status() {
    // White space only is standard error too, whatever else the command did.
    let result = interpret_status("web", &output(true, Some(0), "run: web: (pid 1) 2s", " \n"));
    assert_eq!(
        result,
        Err(ServiceError::SvCommand { service: "web".to_string(), message: " \n".to_string() })
    );
    let result = interpret_status("web", &output(true, Some(0), "", "\t"));
    assert_eq!(
        result,
        Err(ServiceError::SvCommand { service: "web".to_string(), message: "\t".to_string() })
    );
    assert_eq!(capture_error("  no \n"), "no");
    assert_eq!(capture_error(" "), " ");
}

#[test]
fn a_blank_standard_output_is_no_output() {
    // A standard output of white space only says nothing either.
    let result = interpret_status("web", &output(false, Some(1), " \n", ""));
    assert_eq!(
        result,
        Err(ServiceError::SvCommand {
            service: "web".to_string(),
            message: "sv status returned no output (exit status 1)".to_string()
        })
    );
    let result = interpret_status("web", &output(true, Some(0), "\t", ""));
    assert_eq!(
        result,
        Err(ServiceError::SvCommand {
            service: "web".to_string(),
            message: "sv status returned no output (exit status 0)".to_string()
        })
    );
}

#[test]
fn status_reads_standard_output() {
    let result = interpret_status("web", &output(false, Some(3), "what is this\n", ""));
    assert_eq!(result, Ok(ServiceRuntimeState::Unknown { raw: "what is this".to_string() }));
}

#[test]
fn status_reports_a_command_that_cannot_run() {
    let manager = ServiceManager::default();
    let step = manager.resume(
        Query::Status { service: "web".to_string() },
        Reply::Failed("No such file or directory".to_string()),
    );
    assert_eq!(
        step,
        QueryStep::Done(Err(ServiceError::Io {
            source: "No such file or directory".to_string(),
            path: "sv".to_string()
        }))
    );
    assert_eq!(
        ServiceError::from_io("sv", "No such file or directory"),
        ServiceError::Io { source: "No such file or directory".to_string(), path: "sv".to_string() }
    );
}

#[test]
fn descriptions_are_first_lines() {
    assert_eq!(read_description(&None), None);
    assert_eq!(read_description(&Some(String::new())), None);
    assert_eq!(read_description(&Some(" \n\t\n".to_string())), None);
    assert_eq!(read_description(&Some("one".to_string())), Some("one".to_string()));
    assert_eq!(read_description(&Some("\n\n one \nnext".to_string())), Some("one ".to_string()));
    assert_eq!(read_description(&Some("one\r\ntwo".to_string())), Some("one".to_string()));
    assert_eq!(read_description(&Some("one\rtwo\n".to_string())), Some("one\rtwo".to_string()));
    assert_eq!(candidate(0), "description");
    assert_eq!(candidate(1), "README");
    assert_eq!(candidate(2), "README.md");
}

#[test]
fn service_errors_have_messages() {
    assert_eq!(
        ServiceError::InvalidServiceName("a b".to_string()).message(),
        "invalid service name: a b"
    );
    assert_eq!(
        ServiceError::SvCommand { service: "web".to_string(), message: "no".to_string() }.message(),
        "sv command failed for service web: no"
    );
    assert_eq!(
        ServiceError::from_io("/etc/sv", "denied").message(),
        "I/O error while accessing \"/etc/sv\": denied"
    );
    assert_eq!(
        ServiceError::LogUnavailable("web".to_string()).message(),
        "log stream unavailable for web"
    );
    assert_eq!(ServiceError::Other("odd".to_string()).message(), "odd");
}

#[test]
fn hidden_services_have_no_snapshot() {
    let manager = ServiceManager::default();
    let state = ServiceRuntimeState::Unknown { raw: String::new() };
    assert_eq!(manager.build_service_info(".git", "/etc/sv/.git", true, state, None), None);
    let state = ServiceRuntimeState::Running { pid: 1, uptime: 2 };
    let info = manager
        .build_service_info("web", "/etc/sv/web", true, state, Some("Web".to_string()))
        .unwrap();
    assert_eq!(info.name, "web");
    assert_eq!(info.definition_path, "/etc/sv/web");
    assert!(info.enabled);
    assert_eq!(info.desired_state, runkit::DesiredState::AutoStart);
    assert_eq!(info.runtime_state, ServiceRuntimeState::Running { pid: 1, uptime: 2 });
    assert_eq!(info.description, Some("Web".to_string()));
}

fn answer(manager: &ServiceManager, step: QueryStep, reply: Reply) -> QueryStep {
    match step {
        QueryStep::Ask(query, _) => manager.resume(query, reply),
        other => panic!("unexpected step: {:?}", other),
    }
}

fn asked(step: &QueryStep) -> &Effect {
    match step {
        QueryStep::Ask(_, effect) => effect,
        other => panic!("unexpected step: {:?}", other),
    }
}

#[test]
fn the_manager_enumerates_step_by_step() {
    let manager = ServiceManager::new("/defs/", "/on");
    let step = manager.list_services();
    assert_eq!(asked(&step), &Effect::ListDirectory { path: "/defs/".to_string() });
    let entries = vec![
        DirEntry { name: Some("plain-file".to_string()), is_dir: false },
        DirEntry { name: Some("web".to_string()), is_dir: true },
    ];
    let step = answer(&manager, step, Reply::Entries(entries));
    assert_eq!(asked(&step), &Effect::CheckExists { path: "/on/web".to_string() });
    let step = answer(&manager, step, Reply::Exists(true));
    assert_eq!(
        asked(&step),
        &Effect::RunCommand {
            program: "sv".to_string(),
            subcommand: "status".to_string(),
            service: "web".to_string()
        }
    );
    let step = answer(
        &manager,
        step,
        Reply::Output(output(true, Some(0), "fail: web: (pid 4) 5s, exit 6\n", "")),
    );
    assert_eq!(asked(&step), &Effect::ReadText { path: "/defs/web/description".to_string() });
    let step = answer(&manager, step, Reply::Text(None));
    assert_eq!(asked(&step), &Effect::ReadText { path: "/defs/web/README".to_string() });
    let step = answer(&manager, step, Reply::Text(Some("\n".to_string())));
    assert_eq!(asked(&step), &Effect::ReadText { path: "/defs/web/README.md".to_string() });
    let step = answer(&manager, step, Reply::Text(Some("Web\nserver".to_string())));
    match step {
        QueryStep::Done(Ok(Answer::Services(services))) => {
            assert_eq!(services.len(), 1);
            assert_eq!(services[0].name, "web");
            assert_eq!(services[0].definition_path, "/defs/web");
            assert!(services[0].enabled);
            assert_eq!(services[0].desired_state, DesiredState::AutoStart);
            assert_eq!(
                services[0].runtime_state,
                ServiceRuntimeState::Failed { pid: 4, uptime: 5, exit_code: 6 }
            );
            assert_eq!(services[0].description, Some("Web".to_string()));
            assert_eq!(services[0].clone(), services[0]);
        }
        other => panic!("unexpected step: {:?}", other),
    }
}

#[test]
fn the_manager_asks_for_logs_and_descriptions() {
    let manager = ServiceManager::new("/defs", "/on");
    let step = manager.tail_logs("web", 0);
    assert_eq!(asked(&step), &Effect::TailLog { service: "web".to_string(), lines: 1 });
    let line = ServiceLogEntry {
        timestamp_unix: None,
        timestamp_nanos: None,
        timestamp_raw: Some("@4".to_string()),
        message: "up".to_string(),
    };
    match answer(&manager, step, Reply::Log(Some(vec![line]))) {
        QueryStep::Done(Ok(Answer::Log(lines))) => {
            assert_eq!(lines.len(), 1);
            assert_eq!(lines[0].message, "up");
            assert_eq!(lines[0].timestamp_raw, Some("@4".to_string()));
        }
        other => panic!("unexpected step: {:?}", other),
    }
    assert_eq!(
        answer(&manager, manager.tail_logs("web", 9), Reply::Log(None)),
        QueryStep::Done(Err(ServiceError::LogUnavailable("web".to_string())))
    );
    assert_eq!(
        manager.tail_logs("a b", 9),
        QueryStep::Done(Err(ServiceError::InvalidServiceName("a b".to_string())))
    );
    let step = manager.service_description("web");
    assert_eq!(asked(&step), &Effect::ReadText { path: "/defs/web/description".to_string() });
    assert_eq!(
        answer(&manager, step, Reply::Text(Some(" Web \n".to_string()))),
        QueryStep::Done(Ok(Answer::Description(Some("Web".to_string()))))
    );
    assert_eq!(
        manager.service_description(""),
        QueryStep::Done(Err(ServiceError::InvalidServiceName(String::new())))
    );
}

#[test]
fn the_manager_refuses_a_reply_that_was_not_asked_for() {
    let manager = ServiceManager::default();
    let unexpected = ServiceError::Other("unexpected reply from the host".to_string());
    assert_eq!(
        answer(&manager, manager.status("web"), Reply::Exists(true)),
        QueryStep::Done(Err(ServiceError::Other("unexpected reply from the host".to_string())))
    );
    assert_eq!(
        answer(&manager, manager.list_services(), Reply::Done),
        QueryStep::Done(Err(ServiceError::Other("unexpected reply from the host".to_string())))
    );
    assert_eq!(
        answer(&manager, manager.tail_logs("web", 1), Reply::Failed("no".to_string())),
        QueryStep::Done(Err(unexpected))
    );
    let copy = manager.clone();
    assert_eq!(copy.definitions_dir(), manager.definitions_dir());
    assert_eq!(copy.enabled_dir(), manager.enabled_dir());
    assert_eq!(copy.sv_command_path(), manager.sv_command_path());
}
