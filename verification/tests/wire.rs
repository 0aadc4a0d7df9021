use runkit::client::log_line_cap;
use runkit::{
    ActionKind, DaemonProcessResponse, DescriptionSnapshot, DesiredState, LogEntry,
    LogEntrySnapshot, ServiceInfo, ServiceLogEntry, ServiceRuntimeState, ServiceSnapshot,
    SnapshotDesiredState, SnapshotRuntimeState,
};

fn info(state: ServiceRuntimeState, enabled: bool) -> ServiceInfo {
    ServiceInfo {
        name: "web".to_string(),
        definition_path: "/etc/sv/web".to_string(),
        enabled,
        desired_state: DesiredState::from_enabled(enabled),
        runtime_state: state,
        description: Some("Web server".to_string()),
    }
}

#[test]
fn services_survive_the_wire() {
    let states = [
        ServiceRuntimeState::Running { pid: 1234, uptime: 42 },
        ServiceRuntimeState::Down { since: 5, normally_up: true },
        ServiceRuntimeState::Failed { pid: 9, uptime: 3, exit_code: -1 },
        ServiceRuntimeState::Unknown { raw: "garbage".to_string() },
    ];
    for state in states {
        for enabled in [false, true] {
            let before = info(state.clone(), enabled);
            let snapshot = ServiceSnapshot::from(&before);
            assert_eq!(snapshot.name, "web");
            assert_eq!(snapshot.enabled, enabled);
            let after = ServiceInfo::from(snapshot);
            assert_eq!(after, before);
        }
    }
}

#[test]
fn snapshots_rename_the_times() {
    assert_eq!(
        SnapshotRuntimeState::from(&ServiceRuntimeState::Running { pid: 1, uptime: 2 }),
        SnapshotRuntimeState::Running { pid: 1, uptime_seconds: 2 }
    );
    assert_eq!(
        SnapshotRuntimeState::from(&ServiceRuntimeState::Down { since: 3, normally_up: false }),
        SnapshotRuntimeState::Down { since_seconds: 3, normally_up: false }
    );
    assert_eq!(
        ServiceRuntimeState::from(SnapshotRuntimeState::Failed {
            pid: 4,
            uptime_seconds: 5,
            exit_code: 6
        }),
        ServiceRuntimeState::Failed { pid: 4, uptime: 5, exit_code: 6 }
    );
    assert_eq!(SnapshotDesiredState::from(DesiredState::AutoStart), SnapshotDesiredState::AutoStart);
    assert_eq!(DesiredState::from(SnapshotDesiredState::Manual), DesiredState::Manual);
}

#[test]
fn log_lines_survive_the_wire() {
    let line = ServiceLogEntry {
        timestamp_unix: Some(1700000000),
        timestamp_nanos: Some(5),
        timestamp_raw: Some("@4000".to_string()),
        message: "started".to_string(),
    };
    let entry = LogEntry::from(LogEntrySnapshot::from(line));
    assert_eq!(
        entry,
        LogEntry {
            unix_seconds: Some(1700000000),
            nanos: Some(5),
            raw: Some("@4000".to_string()),
            message: "started".to_string()
        }
    );
    assert_eq!(entry.clone(), entry);
}

fn response<T>(status: &str, message: Option<&str>, data: Option<T>) -> DaemonProcessResponse<T> {
    DaemonProcessResponse {
        status: status.to_string(),
        message: message.map(|text| text.to_string()),
        data,
    }
}

#[test]
fn action_replies_become_messages() {
    assert_eq!(
        response::<()>("ok", Some("Enabled service web"), None).into_message("enable", "web"),
        Ok("Enabled service web".to_string())
    );
    assert_eq!(
        response::<()>("ok", None, None).into_message("enable", "web"),
        Ok("enable command completed for web".to_string())
    );
    assert_eq!(
        response::<()>("error", Some("Authorization denied"), None).into_message("enable", "web"),
        Err("Authorization denied".to_string())
    );
    assert_eq!(
        response::<()>("weird", None, None).into_message("enable", "web"),
        Err("runkitd reported failure for web".to_string())
    );
}

#[test]
fn service_replies_are_decoded() {
    let snapshot = ServiceSnapshot::from(&info(ServiceRuntimeState::Running { pid: 1, uptime: 2 }, true));
    let reply = response("ok", None, Some(vec![snapshot]));
    assert_eq!(
        reply.into_services(),
        Ok(vec![info(ServiceRuntimeState::Running { pid: 1, uptime: 2 }, true)])
    );
    assert_eq!(
        response::<Vec<ServiceSnapshot>>("ok", None, None).into_services(),
        Err("runkitd returned no service data".to_string())
    );
    assert_eq!(
        response::<Vec<ServiceSnapshot>>("error", None, Some(vec![])).into_services(),
        Err("runkitd failed to enumerate services".to_string())
    );
    assert_eq!(
        response::<Vec<ServiceSnapshot>>("error", Some("boom"), None).into_services(),
        Err("boom".to_string())
    );
}

#[test]
fn log_replies_are_decoded() {
    let lines = vec![
        LogEntrySnapshot { unix_seconds: None, nanos: None, raw: None, message: "a".to_string() },
        LogEntrySnapshot { unix_seconds: Some(1), nanos: Some(2), raw: None, message: "b".to_string() },
    ];
    let decoded = response("ok", None, Some(lines)).into_logs("web").unwrap();
    assert_eq!(decoded.len(), 2);
    assert_eq!(decoded[0].message, "a");
    assert_eq!(decoded[1].unix_seconds, Some(1));
    assert_eq!(decoded[1].nanos, Some(2));
    assert_eq!(
        response::<Vec<LogEntrySnapshot>>("ok", None, None).into_logs("web"),
        Err("runkitd returned no log data".to_string())
    );
    assert_eq!(
        response::<Vec<LogEntrySnapshot>>("error", None, None).into_logs("web"),
        Err("runkitd failed to stream logs for web".to_string())
    );
}

#[test]
fn description_replies_are_decoded() {
    let data = DescriptionSnapshot { service: "web".to_string(), description: Some("Web".to_string()) };
    assert_eq!(
        response("ok", None, Some(data)).into_description("web"),
        Ok(Some("Web".to_string()))
    );
    let data = DescriptionSnapshot { service: "web".to_string(), description: None };
    assert_eq!(response("ok", None, Some(data)).into_description("web"), Ok(None));
    assert_eq!(
        response::<DescriptionSnapshot>("ok", None, None).into_description("web"),
        Err("runkitd returned no description data".to_string())
    );
    assert_eq!(
        response::<DescriptionSnapshot>("error", None, None).into_description("web"),
        Err("runkitd failed to describe web".to_string())
    );
}

#[test]
fn log_line_caps() {
    assert_eq!(log_line_cap(0), 1);
    assert_eq!(log_line_cap(1), 1);
    assert_eq!(log_line_cap(200), 200);
    assert_eq!(log_line_cap(usize::MAX), u32::MAX);
}

#[test]
fn actions_have_names() {
    let kinds = [
        (ActionKind::Start, "start"),
        (ActionKind::Stop, "stop"),
        (ActionKind::Restart, "restart"),
        (ActionKind::Reload, "reload"),
        (ActionKind::Check, "check"),
        (ActionKind::Once, "once"),
        (ActionKind::Enable, "enable"),
        (ActionKind::Disable, "disable"),
    ];
    for (kind, name) in kinds {
        assert_eq!(kind.as_str(), name);
        assert_eq!(ActionKind::parse(name), Some(kind));
    }
    assert_eq!(ActionKind::parse("Start"), None);
    assert_eq!(ActionKind::parse(""), None);
    assert_eq!(ActionKind::parse("up"), None);
    assert_eq!(ActionKind::Start.supervisor_subcommand(), Some("up"));
    assert_eq!(ActionKind::Stop.supervisor_subcommand(), Some("down"));
    assert_eq!(ActionKind::Enable.supervisor_subcommand(), None);
}
