use rubrika_models::errors::AppErrorCode;
use rubrika_models::process_identity::{
    check_signal_port, check_signal_snapshot, check_signal_target, identity_matches,
    is_launcher_name, recovery_action, signal_permitted, InspectOutcome, ProcessIdentity,
    ProcessSnapshot, RecoveryAction,
};

fn identity() -> ProcessIdentity {
    ProcessIdentity {
        pid: 200,
        owner_uid: 501,
        process_start_time_unix_ms: 1_000,
        canonical_executable_path: "/usr/bin/rubrika-llama-server".to_string(),
        executable_fingerprint: "exe-fp".to_string(),
        argv_fingerprint: "argv-fp".to_string(),
        expected_port: 8080,
        runtime_profile_fingerprint: "profile-fp".to_string(),
        launch_instance_id: "runtime".to_string(),
    }
}

fn snapshot() -> ProcessSnapshot {
    ProcessSnapshot {
        pid: 200,
        owner_uid: 501,
        process_start_time_unix_ms: 1_000,
        canonical_executable_path: "/usr/bin/rubrika-llama-server".to_string(),
        argv_fingerprint: Some("argv-fp".to_string()),
    }
}

fn matches(id: &ProcessIdentity, snap: &ProcessSnapshot, exe_fp: &str, a: &str, b: &str) -> bool {
    identity_matches(id, Some(200), snap, 501, 8080, exe_fp, "profile-fp", a, b)
}

#[test]
fn the_recorded_process_matches_its_identity() {
    assert!(matches(&identity(), &snapshot(), "exe-fp", "rubrika-llama-server", "rubrika-llama-server"));
    let mut late = snapshot();
    late.process_start_time_unix_ms = 1_500;
    assert!(matches(&identity(), &late, "exe-fp", "a", "a"));
    late.process_start_time_unix_ms = 1_501;
    assert!(!matches(&identity(), &late, "exe-fp", "a", "a"));
}

#[test]
fn unrelated_processes_do_not_match() {
    let mut other = snapshot();
    other.canonical_executable_path = "/usr/bin/unrelated-process".to_string();
    assert!(!matches(&identity(), &other, "exe-fp", "rubrika-llama-server", "unrelated-process"));
    let mut foreign = snapshot();
    foreign.owner_uid = 0;
    assert!(!matches(&identity(), &foreign, "exe-fp", "a", "a"));
    let mut argv = snapshot();
    argv.argv_fingerprint = Some("unrelated-argv".to_string());
    assert!(!matches(&identity(), &argv, "exe-fp", "a", "a"));
    assert!(!identity_matches(&identity(), None, &snapshot(), 501, 8080, "exe-fp", "profile-fp", "a", "a"));
    assert!(!identity_matches(&identity(), Some(200), &snapshot(), 501, 9090, "exe-fp", "profile-fp", "a", "a"));
    assert!(!identity_matches(&identity(), Some(200), &snapshot(), 501, 8080, "exe-fp", "other", "a", "a"));
}

#[test]
fn script_launchers_may_change_path() {
    let mut relaunched = snapshot();
    relaunched.canonical_executable_path = "/opt/venv/bin/python3".to_string();
    relaunched.argv_fingerprint = Some("other".to_string());
    assert!(matches(&identity(), &relaunched, "other-fp", "server.py", "python3"));
    assert!(is_launcher_name("env"));
    assert!(is_launcher_name("Python"));
    assert!(is_launcher_name("start.sh"));
    assert!(!is_launcher_name("llama-server"));
}

#[test]
fn recovery_keeps_only_verified_processes() {
    assert_eq!(recovery_action(false, &InspectOutcome::Gone), RecoveryAction::MarkUnverified);
    assert_eq!(recovery_action(true, &InspectOutcome::Failed), RecoveryAction::MarkUnverified);
    assert_eq!(recovery_action(true, &InspectOutcome::Gone), RecoveryAction::Remove);
    assert_eq!(
        recovery_action(true, &InspectOutcome::Live { identity_matches: true, owns_port: true }),
        RecoveryAction::MarkVerified
    );
    assert_eq!(
        recovery_action(true, &InspectOutcome::Live { identity_matches: false, owns_port: true }),
        RecoveryAction::MarkUnverified
    );
    assert_eq!(
        recovery_action(true, &InspectOutcome::Live { identity_matches: true, owns_port: false }),
        RecoveryAction::Remove
    );
}

#[test]
fn identity_mismatch_never_signals_an_unrelated_process() {
    let id = identity();
    let mut unrelated = snapshot();
    unrelated.canonical_executable_path = "/usr/bin/unrelated-process".to_string();
    let error = signal_permitted(Some(&id), 8080, Some(&unrelated), 501, true).unwrap_err();
    assert_eq!(error.code, AppErrorCode::ModelProcessIdentityMismatch);
    assert_eq!(signal_permitted(Some(&id), 8080, Some(&snapshot()), 501, true).unwrap(), 200);
    assert_eq!(
        signal_permitted(Some(&id), 8080, Some(&snapshot()), 501, false).unwrap_err().code,
        AppErrorCode::ModelProcessIdentityMismatch
    );
    assert_eq!(
        signal_permitted(None, 8080, Some(&snapshot()), 501, true).unwrap_err().code,
        AppErrorCode::ModelProcessUnverified
    );
}

#[test]
fn signal_checks_report_each_refusal() {
    let mut bad = identity();
    bad.pid = 0;
    assert_eq!(check_signal_target(Some(&bad), 8080).unwrap_err().code, AppErrorCode::ModelProcessIdentityMismatch);
    let mut huge = identity();
    huge.pid = u32::MAX;
    assert!(check_signal_target(Some(&huge), 8080).is_err());
    let error = check_signal_target(Some(&identity()), 9090).unwrap_err();
    assert_eq!(error.technical_details.as_deref(), Some("pid=200; port=8080"));
    assert_eq!(
        check_signal_snapshot(&identity(), None, 501).unwrap_err().code,
        AppErrorCode::ModelRuntimeExited
    );
    assert!(check_signal_snapshot(&identity(), Some(&snapshot()), 501).is_ok());
    assert_eq!(check_signal_port(false, 200, 8080).unwrap_err().technical_details.as_deref(), Some("pid=200; port=8080"));
}
