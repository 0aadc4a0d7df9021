use runkit::ServiceRuntimeState;
use std::time::Duration;

#[test]
fn parses_running_status() {
    let state = ServiceRuntimeState::from_sv_status("run: sshd: (pid 1234) 42s\n");
    match state {
        ServiceRuntimeState::Running { pid, uptime } => {
            assert_eq!(pid, 1234);
            assert_eq!(Duration::from_secs(uptime), Duration::from_secs(42));
        }
        other => panic!("unexpected state: {:?}", other),
    }
}

#[test]
fn parses_down_status() {
    let state = ServiceRuntimeState::from_sv_status("down: cron: 5s, normally up\n");
    match state {
        ServiceRuntimeState::Down { since, normally_up } => {
            assert_eq!(Duration::from_secs(since), Duration::from_secs(5));
            assert!(normally_up);
        }
        other => panic!("unexpected state: {:?}", other),
    }
}

#[test]
fn parses_failed_status() {
    let state = ServiceRuntimeState::from_sv_status("fail: x: (pid 9) 3s, exit -1");
    assert_eq!(state, ServiceRuntimeState::Failed { pid: 9, uptime: 3, exit_code: -1 });
}

#[test]
fn keeps_unknown_status() {
    let state = ServiceRuntimeState::from_sv_status("garbage\n");
    assert_eq!(state, ServiceRuntimeState::Unknown { raw: "garbage".to_string() });
}

#[test]
fn empty_status_is_unknown() {
    assert_eq!(
        ServiceRuntimeState::from_sv_status(""),
        ServiceRuntimeState::Unknown { raw: String::new() }
    );
    assert_eq!(
        ServiceRuntimeState::from_sv_status("   \nrun: a: (pid 1) 2s"),
        ServiceRuntimeState::Unknown { raw: String::new() }
    );
}

#[test]
fn only_the_first_line_counts() {
    let state = ServiceRuntimeState::from_sv_status("  run: a: (pid 7) 8s; extra\r\ndown: b: 1s\n");
    assert_eq!(state, ServiceRuntimeState::Running { pid: 7, uptime: 8 });
}

#[test]
fn down_without_normally_up() {
    let state = ServiceRuntimeState::from_sv_status("down: cron: 17s");
    assert_eq!(state, ServiceRuntimeState::Down { since: 17, normally_up: false });
}

#[test]
fn normally_up_counts_only_after_the_seconds() {
    let state = ServiceRuntimeState::from_sv_status("down: normally up: 5s");
    assert_eq!(state, ServiceRuntimeState::Down { since: 5, normally_up: false });
    let state = ServiceRuntimeState::from_sv_status("down: x: 5s, want up, normally up");
    assert_eq!(state, ServiceRuntimeState::Down { since: 5, normally_up: true });
}

#[test]
fn unreadable_numbers_fall_through() {
    // The process id does not fit 32 bits.
    let line = "run: a: (pid 4294967296) 1s";
    assert_eq!(
        ServiceRuntimeState::from_sv_status(line),
        ServiceRuntimeState::Unknown { raw: line.to_string() }
    );
    // The seconds do not fit 64 bits.
    let line = "down: a: 18446744073709551616s";
    assert_eq!(
        ServiceRuntimeState::from_sv_status(line),
        ServiceRuntimeState::Unknown { raw: line.to_string() }
    );
    let state = ServiceRuntimeState::from_sv_status("run: a: (pid 4294967295) 18446744073709551615s");
    assert_eq!(state, ServiceRuntimeState::Running { pid: u32::MAX, uptime: u64::MAX });
}

#[test]
fn unreadable_exit_code_is_zero() {
    let state = ServiceRuntimeState::from_sv_status("fail: a: (pid 2) 3s, exit 99999999999");
    assert_eq!(state, ServiceRuntimeState::Failed { pid: 2, uptime: 3, exit_code: 0 });
    let state = ServiceRuntimeState::from_sv_status("fail: a: (pid 2) 3s, exit -2147483648");
    assert_eq!(state, ServiceRuntimeState::Failed { pid: 2, uptime: 3, exit_code: i32::MIN });
}

#[test]
fn patterns_are_not_returned_unchanged() {
    // A match yields the groups of the line, never the text handed in.
    let state = ServiceRuntimeState::from_sv_status("run: name with spaces: (pid 10) 20s");
    assert_eq!(state, ServiceRuntimeState::Running { pid: 10, uptime: 20 });
    let state = ServiceRuntimeState::from_sv_status("run sshd (pid 10) 20s");
    assert_eq!(state, ServiceRuntimeState::Unknown { raw: "run sshd (pid 10) 20s".to_string() });
}

fn groups(texts: &[Option<&str>]) -> Vec<Option<String>> {
    texts.iter().map(|text| text.map(|t| t.to_string())).collect()
}

#[test]
fn reads_the_groups_of_a_running_line() {
    let found = groups(&[Some("run: a: (pid 12) 42s"), Some("a"), Some("12"), Some("42")]);
    assert_eq!(
        ServiceRuntimeState::running_from(&found),
        Some(ServiceRuntimeState::Running { pid: 12, uptime: 42 })
    );
    let found = groups(&[Some("run: a: (pid 12) 42s"), Some("a"), None, Some("42")]);
    assert_eq!(ServiceRuntimeState::running_from(&found), None);
    let found = groups(&[Some("run: a: (pid 12) 42s"), Some("a"), Some("12")]);
    assert_eq!(ServiceRuntimeState::running_from(&found), None);
    assert_eq!(ServiceRuntimeState::running_from(&groups(&[])), None);
}

#[test]
fn reads_the_groups_of_a_down_line() {
    let line = "down: a: 5s, normally up";
    let found = groups(&[Some("down: a: 5s,"), Some("a"), Some("5"), Some(",")]);
    assert_eq!(
        ServiceRuntimeState::down_from(line, &found),
        Some(ServiceRuntimeState::Down { since: 5, normally_up: true })
    );
    let found = groups(&[Some("down: a: 5s"), Some("a"), Some("5"), None]);
    assert_eq!(
        ServiceRuntimeState::down_from("down: a: 5s", &found),
        Some(ServiceRuntimeState::Down { since: 5, normally_up: false })
    );
    // The words count only after the seconds.
    let found = groups(&[Some("down: normally up: 5s"), Some("normally up"), Some("5"), None]);
    assert_eq!(
        ServiceRuntimeState::down_from("down: normally up: 5s", &found),
        Some(ServiceRuntimeState::Down { since: 5, normally_up: false })
    );
    let found = groups(&[Some("down: a: xs"), Some("a"), Some("x"), None]);
    assert_eq!(ServiceRuntimeState::down_from("down: a: xs", &found), None);
}

#[test]
fn reads_the_groups_of_a_failed_line() {
    let found =
        groups(&[Some("fail: x: (pid 9) 3s, exit -1"), Some("x"), Some("9"), Some("3"), Some("-1")]);
    assert_eq!(
        ServiceRuntimeState::failed_from(&found),
        Some(ServiceRuntimeState::Failed { pid: 9, uptime: 3, exit_code: -1 })
    );
    let found = groups(&[Some("fail"), Some("x"), Some("9"), Some("3"), Some("-")]);
    assert_eq!(
        ServiceRuntimeState::failed_from(&found),
        Some(ServiceRuntimeState::Failed { pid: 9, uptime: 3, exit_code: 0 })
    );
    let found = groups(&[Some("fail"), Some("x"), Some("9"), Some("3")]);
    assert_eq!(
        ServiceRuntimeState::failed_from(&found),
        Some(ServiceRuntimeState::Failed { pid: 9, uptime: 3, exit_code: 0 })
    );
    let found = groups(&[Some("fail"), Some("x"), Some("9"), Some("-3"), Some("1")]);
    assert_eq!(ServiceRuntimeState::failed_from(&found), None);
}

#[test]
fn states_can_be_copied() {
    let states = [
        ServiceRuntimeState::Running { pid: 1, uptime: 2 },
        ServiceRuntimeState::Down { since: 3, normally_up: true },
        ServiceRuntimeState::Failed { pid: 4, uptime: 5, exit_code: 6 },
        ServiceRuntimeState::Unknown { raw: "?".to_string() },
    ];
    for state in states {
        assert_eq!(state.clone(), state);
    }
}
