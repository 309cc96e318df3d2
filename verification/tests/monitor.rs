use bedrock_vmx::workload_monitor::{AlwaysEq, Event, BARRIER_KILL_EXIT_CODE, EXEC_DEATH_MSG};

fn event(type_: &str, status: &str, exit_code: Option<i64>, name: &str) -> Event {
    Event {
        type_: Some(type_.to_string()),
        status: Some(status.to_string()),
        exit_code,
        name: Some(name.to_string()),
    }
}

#[test]
fn exec_died_clean_and_failed_assert_but_barrier_kill_is_ignored() {
    let (code, msg) = event("container", "exec_died", Some(0), "c1")
        .death()
        .expect("clean exec death asserts");
    assert_eq!((code, msg.as_str()), (0, EXEC_DEATH_MSG));

    let (code, msg) = event("container", "exec_died", Some(1), "c1")
        .death()
        .expect("failed exec death asserts");
    assert_eq!((code, msg.as_str()), (1, EXEC_DEATH_MSG));

    assert!(
        event("container", "exec_died", Some(BARRIER_KILL_EXIT_CODE), "c1")
            .death()
            .is_none(),
        "SIGKILLed (137) execs must not assert"
    );
}

#[test]
fn container_death_still_asserts_on_137() {
    let (code, msg) = event("container", "died", Some(137), "btcd1")
        .death()
        .expect("container death asserts");
    assert_eq!(code, 137);
    assert_eq!(msg, "container btcd1 exit code is zero");
}

#[test]
fn other_events_assert_nothing() {
    assert!(event("container", "start", Some(0), "c1").death().is_none());
    assert!(event("image", "died", Some(0), "c1").death().is_none());
    let empty = Event {
        type_: None,
        status: None,
        exit_code: None,
        name: None,
    };
    assert!(empty.death().is_none());
}

#[test]
fn missing_fields_have_defaults() {
    let nameless = Event {
        type_: Some("container".to_string()),
        status: Some("died".to_string()),
        exit_code: None,
        name: None,
    };
    assert_eq!(
        nameless.death(),
        Some((0, "container <unknown> exit code is zero".to_string()))
    );
}

#[test]
fn only_a_zero_exit_code_holds() {
    assert!(AlwaysEq::exit_code(0, EXEC_DEATH_MSG.to_string()).holds());
    let failed = AlwaysEq::exit_code(42, EXEC_DEATH_MSG.to_string());
    assert!(!failed.holds());
    assert_eq!((failed.x, failed.y), (42, 0));
}
