use rubrika_models::config::default_model_profile;
use rubrika_models::domain::{ModelMode, ModelProfile};
use rubrika_models::errors::{AppError, AppErrorCode};
use rubrika_models::lease::{
    check_lease_ready, check_mmproj_for_lease, check_runtime_verified, issue_lease,
    acquire_lease_step, lease_needs_start, lease_start_error, AcquireAction, AcquireEvent,
    LeaseRecord, LeaseRegistry, LeaseRequest,
};

fn record(lease_id: &str, runtime: &str, kind: &str, acquired_at_millis: i64) -> LeaseRecord {
    LeaseRecord {
        lease_id: lease_id.to_string(),
        runtime_instance_id: runtime.to_string(),
        profile_id: "gemma4-ocr-q8".to_string(),
        consumer_id: kind.to_string(),
        job_id: None,
        operation_kind: kind.to_string(),
        acquired_at_millis,
    }
}

fn profile_with_mode(mode: ModelMode) -> ModelProfile {
    let mut profile = default_model_profile();
    profile.mode = mode;
    profile
}

#[test]
fn releasing_one_registry_lease_preserves_another_without_network() {
    let mut registry = LeaseRegistry::new();
    registry.grant(record("lease-a", "runtime-test", "ocr", 0), "profile-test".to_string());
    let count = registry.grant(record("lease-b", "runtime-test", "scoring", 0), "profile-test".to_string());
    assert_eq!(count, 2);
    let (last, _) = registry.release("lease-a", "runtime-test").expect("first lease release");
    assert!(!last);
    assert_eq!(registry.active_lease_count(), 1);
    let (last, _) = registry.release("lease-b", "runtime-test").expect("second lease release");
    assert!(last);
    assert_eq!(registry.active_lease_count(), 0);
}

#[test]
fn fifty_concurrent_lease_releases_leave_zero_owned_runtime() {
    let mut registry = LeaseRegistry::new();
    for index in 0..50 {
        let lease_id = format!("lease-{index}");
        registry.grant(record(&lease_id, "runtime-stress", "stress", 0), "profile-stress".to_string());
    }
    assert_eq!(registry.active_lease_count(), 50);
    for index in 0..50 {
        registry
            .release(&format!("lease-{index}"), "runtime-stress")
            .expect("lease release");
    }
    assert_eq!(registry.active_lease_count(), 0);
}

#[test]
fn releasing_twice_reports_already_released() {
    let mut registry = LeaseRegistry::new();
    registry.grant(record("lease-a", "runtime-1", "ocr", 0), "fp".to_string());
    registry.release("lease-a", "runtime-1").expect("release");
    let error = registry.release("lease-a", "runtime-1").expect_err("second release");
    assert_eq!(error.code, AppErrorCode::ModelRuntimeLeaseAlreadyReleased);
}

#[test]
fn releasing_on_another_runtime_is_invalid_and_keeps_the_lease() {
    let mut registry = LeaseRegistry::new();
    registry.grant(record("lease-a", "runtime-1", "ocr", 0), "fp".to_string());
    let error = registry.release("lease-a", "runtime-2").expect_err("wrong runtime");
    assert_eq!(error.code, AppErrorCode::ModelRuntimeLeaseInvalid);
    assert_eq!(
        error.technical_details.as_deref(),
        Some("lease_id=lease-a; runtime_instance_id=runtime-2")
    );
    assert_eq!(registry.active_lease_count(), 1);
}

#[test]
fn regranting_a_lease_id_replaces_it() {
    let mut registry = LeaseRegistry::new();
    registry.grant(record("lease-a", "runtime-1", "ocr", 0), "fp".to_string());
    let count = registry.grant(record("lease-a", "runtime-1", "scoring", 0), "fp".to_string());
    assert_eq!(count, 1);
    let diagnostics = registry.diagnostics(0);
    assert_eq!(diagnostics.operation_kinds, vec!["scoring".to_string()]);
}

#[test]
fn draining_refuses_new_leases() {
    let mut registry = LeaseRegistry::new();
    registry.grant(record("lease-a", "runtime-1", "ocr", 0), "fp".to_string());
    registry.set_draining(true);
    assert!(registry.is_draining());
    let error = registry.check_admission("fp", "gemma4-ocr-q8").expect_err("draining");
    assert_eq!(error.code, AppErrorCode::ModelRuntimeDraining);
    assert_eq!(error.technical_details.as_deref(), Some("active_leases=1"));
}

#[test]
fn another_profile_is_busy_while_leases_are_held() {
    let mut registry = LeaseRegistry::new();
    registry.grant(record("lease-a", "runtime-1", "ocr", 0), "fp-ocr".to_string());
    let error = registry.check_admission("fp-text", "text-profile").expect_err("busy");
    assert_eq!(error.code, AppErrorCode::ModelRuntimeProfileBusy);
    assert_eq!(error.technical_details.as_deref(), Some("requested_profile=text-profile"));
    assert!(registry.check_admission("fp-ocr", "gemma4-ocr-q8").is_ok());
    assert!(registry.profile_switch_needed("fp-text"));
    assert!(!registry.profile_switch_needed("fp-ocr"));
    registry.release("lease-a", "runtime-1").expect("release");
    assert!(registry.check_admission("fp-text", "text-profile").is_ok());
}

#[test]
fn grant_ends_draining_and_follows_the_runtime() {
    let mut registry = LeaseRegistry::new();
    registry.set_draining(true);
    registry.grant(record("lease-a", "runtime-9", "ocr", 0), "fp-9".to_string());
    assert!(!registry.is_draining());
    assert_eq!(registry.runtime_instance_id().as_deref(), Some("runtime-9"));
    assert_eq!(registry.profile_fingerprint().as_deref(), Some("fp-9"));
}

#[test]
fn idle_shutdown_applies_only_to_the_generation_it_was_taken_at() {
    let mut registry = LeaseRegistry::new();
    registry.grant(record("lease-a", "runtime-1", "ocr", 0), "fp".to_string());
    let (last, generation) = registry.release("lease-a", "runtime-1").expect("release");
    assert!(last);
    assert!(registry.idle_shutdown_due("runtime-1", generation));
    assert!(!registry.idle_shutdown_due("runtime-2", generation));
    registry.grant(record("lease-b", "runtime-1", "ocr", 0), "fp".to_string());
    registry.release("lease-b", "runtime-1").expect("release");
    assert!(!registry.idle_shutdown_due("runtime-1", generation));
}

#[test]
fn idle_delay_is_zero_while_draining() {
    let mut registry = LeaseRegistry::new();
    assert_eq!(registry.idle_delay_millis(5000), 5000);
    registry.set_draining(true);
    assert_eq!(registry.idle_delay_millis(5000), 0);
}

#[test]
fn unexpected_exit_drops_the_runtime_leases() {
    let mut registry = LeaseRegistry::new();
    registry.grant(record("lease-a", "runtime-1", "ocr", 0), "fp".to_string());
    registry.runtime_exited("runtime-2");
    assert_eq!(registry.active_lease_count(), 1);
    registry.runtime_exited("runtime-1");
    assert_eq!(registry.active_lease_count(), 0);
    assert_eq!(registry.runtime_instance_id(), None);
    assert_eq!(registry.profile_fingerprint(), None);
}

#[test]
fn reset_forgets_runtime_and_leases() {
    let mut registry = LeaseRegistry::new();
    registry.grant(record("lease-a", "runtime-1", "ocr", 0), "fp".to_string());
    registry.set_draining(true);
    registry.reset();
    assert_eq!(registry.active_lease_count(), 0);
    assert!(!registry.is_draining());
    assert_eq!(registry.runtime_instance_id(), None);
}

#[test]
fn diagnostics_report_oldest_age_and_distinct_kinds() {
    let mut registry = LeaseRegistry::new();
    let empty = registry.diagnostics(10_000);
    assert_eq!(empty.active_lease_count, 0);
    assert_eq!(empty.oldest_lease_age_seconds, None);
    assert!(empty.operation_kinds.is_empty());
    registry.grant(record("a", "r", "ocr", 1_000), "fp".to_string());
    registry.grant(record("b", "r", "scoring", 4_500), "fp".to_string());
    registry.grant(record("c", "r", "ocr", 20_000), "fp".to_string());
    let diagnostics = registry.diagnostics(10_000);
    assert_eq!(diagnostics.active_lease_count, 3);
    assert_eq!(diagnostics.oldest_lease_age_seconds, Some(9));
    assert_eq!(diagnostics.operation_kinds.len(), 2);
    assert!(diagnostics.operation_kinds.contains(&"ocr".to_string()));
    assert!(diagnostics.operation_kinds.contains(&"scoring".to_string()));
}

#[test]
fn lease_needing_projector_is_refused_without_one() {
    let mut profile = default_model_profile();
    profile.mmproj_path = "  ".to_string();
    let error = check_mmproj_for_lease(true, &profile).expect_err("mmproj missing");
    assert_eq!(error.code, AppErrorCode::ModelMmprojMissing);
    assert!(check_mmproj_for_lease(false, &profile).is_ok());
    profile.mmproj_path = "/models/mmproj.gguf".to_string();
    assert!(check_mmproj_for_lease(true, &profile).is_ok());
}

#[test]
fn unverified_runtime_refuses_leases() {
    let error = check_runtime_verified(true, "p").expect_err("unverified");
    assert_eq!(error.code, AppErrorCode::ModelProcessUnverified);
    assert!(check_runtime_verified(false, "p").is_ok());
}

#[test]
fn lease_start_plan_follows_health_and_mode() {
    let managed = profile_with_mode(ModelMode::Managed);
    let external = profile_with_mode(ModelMode::External);
    assert!(!lease_needs_start(true, false, false, &managed, "ocr").unwrap());
    assert!(!lease_needs_start(true, true, true, &managed, "ocr").unwrap());
    assert!(lease_needs_start(true, true, false, &managed, "ocr").unwrap());
    assert!(lease_needs_start(false, false, false, &managed, "ocr").unwrap());
    assert!(!lease_needs_start(true, true, false, &external, "ocr").unwrap());
    let error = lease_needs_start(false, false, false, &external, "ocr").expect_err("not running");
    assert_eq!(error.code, AppErrorCode::ModelServerNotRunning);
}

fn plain_error(code: AppErrorCode) -> AppError {
    AppError {
        code,
        message: "m".to_string(),
        recoverable: false,
        suggested_action: None,
        technical_details: Some("d".to_string()),
        correlation_id: "c".to_string(),
    }
}

#[test]
fn start_failures_are_relabelled_for_leases() {
    let timeout = lease_start_error(plain_error(AppErrorCode::ModelServerReadyTimeout));
    assert_eq!(timeout.code, AppErrorCode::ModelRuntimeReadinessTimeout);
    assert_eq!(timeout.technical_details.as_deref(), Some("d"));
    let failed = lease_start_error(plain_error(AppErrorCode::ModelServerStartFailed));
    assert_eq!(failed.code, AppErrorCode::ModelRuntimeStartFailed);
    let other = lease_start_error(plain_error(AppErrorCode::ModelPortAlreadyInUse));
    assert_eq!(other.code, AppErrorCode::ModelPortAlreadyInUse);
}

#[test]
fn lease_is_refused_when_never_ready() {
    let error = check_lease_ready(false, "p", &Some("r".to_string())).expect_err("not ready");
    assert_eq!(error.code, AppErrorCode::ModelRuntimeReadinessTimeout);
    assert_eq!(error.technical_details.as_deref(), Some("profile_id=p; runtime_instance=Some(r)"));
    assert!(check_lease_ready(true, "p", &None).is_ok());
}

#[test]
fn issued_lease_is_recorded_and_described() {
    let profile = default_model_profile();
    let mut registry = LeaseRegistry::new();
    let grant = issue_lease(
        &mut registry,
        Some("runtime-1".to_string()),
        &profile,
        "fp".to_string(),
        Some("model-fp".to_string()),
        "ocr",
        Some("job-a"),
        "ocr",
        "corr-a",
    );
    assert_eq!(grant.correlation_id, "corr-a");
    assert_eq!(grant.runtime_instance_id, "runtime-1");
    assert_eq!(grant.profile_id, profile.id);
    assert_eq!(grant.base_url, profile.base_url);
    assert_eq!(grant.profile_fingerprint, "fp");
    assert_eq!(grant.model_fingerprint.as_deref(), Some("model-fp"));
    assert_eq!(grant.active_lease_count, 1);
    let external = issue_lease(&mut registry, None, &profile, "fp".to_string(), None, "scoring", None, "scoring", "corr-b");
    assert!(external.runtime_instance_id.starts_with("external-"));
    assert_ne!(external.lease_id, grant.lease_id);
    assert_eq!(external.active_lease_count, 2);
    registry
        .release(&external.lease_id, &external.runtime_instance_id)
        .expect("release external lease");
    assert_eq!(registry.active_lease_count(), 1);
}

fn lease_request(mode: ModelMode, fingerprint: &str) -> LeaseRequest {
    LeaseRequest {
        profile: profile_with_mode(mode),
        profile_fingerprint: fingerprint.to_string(),
        model_fingerprint: Some("model-fp".to_string()),
        requires_mmproj: false,
        consumer_id: "scoring".to_string(),
        job_id: Some("job-1".to_string()),
        operation_kind: "scoring".to_string(),
        correlation_id: "corr-1".to_string(),
    }
}

#[test]
fn acquiring_a_lease_on_a_stopped_managed_server_starts_and_waits_for_it() {
    let mut registry = LeaseRegistry::new();
    let request = lease_request(ModelMode::Managed, "fp-a");
    assert!(matches!(acquire_lease_step(&mut registry, &request, AcquireEvent::Begin), AcquireAction::ProbeStatus));
    let probed = AcquireEvent::Probed { unverified: false, has_metadata: false, health_ok: false, started_by_app: false };
    assert!(matches!(acquire_lease_step(&mut registry, &request, probed), AcquireAction::StartServer));
    assert!(matches!(
        acquire_lease_step(&mut registry, &request, AcquireEvent::StartFinished(Ok(false))),
        AcquireAction::WaitUntilReady
    ));
    assert!(matches!(
        acquire_lease_step(&mut registry, &request, AcquireEvent::WaitFinished(Ok(true))),
        AcquireAction::LookupInstance
    ));
    match acquire_lease_step(&mut registry, &request, AcquireEvent::InstanceFound(Some("runtime-1".to_string()))) {
        AcquireAction::Granted(g) => {
            assert_eq!(g.runtime_instance_id, "runtime-1");
            assert_eq!(g.profile_fingerprint, "fp-a");
            assert_eq!(g.model_fingerprint.as_deref(), Some("model-fp"));
            assert_eq!(g.correlation_id, "corr-1");
            assert_eq!(g.active_lease_count, 1);
        }
        other => panic!("unexpected {other:?}"),
    }
    assert_eq!(registry.active_lease_count(), 1);
}

#[test]
fn acquiring_a_lease_for_another_profile_stops_the_running_one_unless_busy() {
    let mut registry = LeaseRegistry::new();
    registry.grant(record("lease-a", "runtime-a", "ocr", 0), "fp-a".to_string());
    let request = lease_request(ModelMode::Managed, "fp-b");
    match acquire_lease_step(&mut registry, &request, AcquireEvent::Begin) {
        AcquireAction::Failed(e) => assert_eq!(e.code, AppErrorCode::ModelRuntimeProfileBusy),
        other => panic!("unexpected {other:?}"),
    }
    registry.release("lease-a", "runtime-a").unwrap();
    assert!(matches!(acquire_lease_step(&mut registry, &request, AcquireEvent::Begin), AcquireAction::StopCurrentRuntime));
    assert!(matches!(acquire_lease_step(&mut registry, &request, AcquireEvent::RuntimeStopped), AcquireAction::ProbeStatus));
    assert_eq!(registry.profile_fingerprint(), None);
}

#[test]
fn acquiring_a_lease_fails_on_an_unusable_or_unready_server() {
    let mut registry = LeaseRegistry::new();
    let external = lease_request(ModelMode::External, "fp-a");
    let probed = AcquireEvent::Probed { unverified: false, has_metadata: true, health_ok: false, started_by_app: false };
    match acquire_lease_step(&mut registry, &external, probed) {
        AcquireAction::Failed(e) => assert_eq!(e.code, AppErrorCode::ModelServerNotRunning),
        other => panic!("unexpected {other:?}"),
    }
    let unverified = AcquireEvent::Probed { unverified: true, has_metadata: true, health_ok: true, started_by_app: true };
    match acquire_lease_step(&mut registry, &external, unverified) {
        AcquireAction::Failed(e) => assert_eq!(e.code, AppErrorCode::ModelProcessUnverified),
        other => panic!("unexpected {other:?}"),
    }
    let managed = lease_request(ModelMode::Managed, "fp-a");
    match acquire_lease_step(&mut registry, &managed, AcquireEvent::WaitFinished(Ok(false))) {
        AcquireAction::Failed(e) => assert_eq!(e.code, AppErrorCode::ModelRuntimeReadinessTimeout),
        other => panic!("unexpected {other:?}"),
    }
    let start_error = AppError {
        code: AppErrorCode::ModelServerStartFailed,
        message: "m".to_string(),
        recoverable: true,
        suggested_action: None,
        technical_details: None,
        correlation_id: "c".to_string(),
    };
    match acquire_lease_step(&mut registry, &managed, AcquireEvent::StartFinished(Err(start_error))) {
        AcquireAction::Failed(e) => assert_eq!(e.code, AppErrorCode::ModelRuntimeStartFailed),
        other => panic!("unexpected {other:?}"),
    }
    registry.set_draining(true);
    match acquire_lease_step(&mut registry, &managed, AcquireEvent::Begin) {
        AcquireAction::Failed(e) => assert_eq!(e.code, AppErrorCode::ModelRuntimeDraining),
        other => panic!("unexpected {other:?}"),
    }
    assert_eq!(registry.active_lease_count(), 0);
}
