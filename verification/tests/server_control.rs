use rubrika_models::config::default_model_profile;
use rubrika_models::domain::ModelMode;
use rubrika_models::errors::AppErrorCode;
use rubrika_models::lease::{LeaseRecord, LeaseRegistry};
use rubrika_models::server_control::{
    exited_before_ready_error, readiness_backoff_millis, ready_timeout_error,
    already_running_output, check_no_other_runtime, check_start_not_draining, finish_stop,
    flash_attention_setting, plan_stop, port_in_use_outcome, require_managed, require_paths,
    started_output, StopDecision, StopFacts,
};

fn lease(id: &str) -> LeaseRecord {
    LeaseRecord {
        lease_id: id.to_string(),
        runtime_instance_id: "runtime-1".to_string(),
        profile_id: "gemma4-ocr-q8".to_string(),
        consumer_id: "ocr".to_string(),
        job_id: None,
        operation_kind: "ocr".to_string(),
        acquired_at_millis: 0,
    }
}

fn verified_process() -> StopFacts {
    StopFacts { started_by_app: true, unverified: false, has_identity: true, pid: Some(42) }
}

#[test]
fn external_profile_is_not_managed() {
    let mut profile = default_model_profile();
    profile.mode = ModelMode::External;
    let error = require_managed(&profile).expect_err("external");
    assert_eq!(error.code, AppErrorCode::ModelProfileNotManaged);
    profile.mode = ModelMode::Managed;
    assert!(require_managed(&profile).is_ok());
}

#[test]
fn manual_start_is_blocked_while_runtime_is_draining() {
    let error = check_start_not_draining(true, "p").expect_err("draining");
    assert_eq!(error.code, AppErrorCode::ModelRuntimeDraining);
    assert!(check_start_not_draining(false, "p").is_ok());
}

#[test]
fn another_running_runtime_blocks_a_start() {
    let error = check_no_other_runtime(Some("other".to_string())).expect_err("other runtime");
    assert_eq!(error.code, AppErrorCode::ModelPortAlreadyInUse);
    assert_eq!(error.technical_details.as_deref(), Some("other"));
    assert!(check_no_other_runtime(None).is_ok());
}

#[test]
fn missing_paths_are_reported_in_order() {
    let mut profile = default_model_profile();
    profile.server_path = "/bin/llama-server".to_string();
    profile.model_path = "/models/m.gguf".to_string();
    profile.mmproj_path = "/models/p.gguf".to_string();
    assert_eq!(
        require_paths(&profile, false, false, false).unwrap_err().code,
        AppErrorCode::ModelServerPathMissing
    );
    assert_eq!(
        require_paths(&profile, true, false, false).unwrap_err().code,
        AppErrorCode::ModelModelPathMissing
    );
    assert_eq!(
        require_paths(&profile, true, true, false).unwrap_err().code,
        AppErrorCode::ModelMmprojPathMissing
    );
    assert!(require_paths(&profile, true, true, true).is_ok());
    profile.mmproj_path = String::new();
    assert!(require_paths(&profile, true, true, false).is_ok());
    profile.server_path = "   ".to_string();
    assert_eq!(
        require_paths(&profile, true, true, true).unwrap_err().code,
        AppErrorCode::ModelServerPathMissing
    );
}

fn managed_profile(server: &str, model: &str, mmproj: &str) -> rubrika_models::domain::ModelProfile {
    let mut profile = default_model_profile();
    profile.mode = ModelMode::Managed;
    profile.server_path = server.to_string();
    profile.model_path = model.to_string();
    profile.mmproj_path = mmproj.to_string();
    profile
}

fn path_present(path: &str) -> bool {
    path != "/does/not/exist"
}

fn start_paths_error(server: &str, model: &str, mmproj: &str) -> AppErrorCode {
    let profile = managed_profile(server, model, mmproj);
    require_managed(&profile).expect("managed");
    require_paths(&profile, path_present(server), path_present(model), path_present(mmproj))
        .unwrap_err()
        .code
}

#[test]
fn start_fails_on_missing_server_path() {
    assert_eq!(
        start_paths_error("/does/not/exist", "/bin/echo", "/bin/echo"),
        AppErrorCode::ModelServerPathMissing
    );
}

#[test]
fn start_fails_on_missing_model_path() {
    assert_eq!(
        start_paths_error("/bin/echo", "/does/not/exist", "/bin/echo"),
        AppErrorCode::ModelModelPathMissing
    );
}

#[test]
fn start_fails_on_missing_mmproj_path() {
    assert_eq!(
        start_paths_error("/bin/echo", "/bin/echo", "/does/not/exist"),
        AppErrorCode::ModelMmprojPathMissing
    );
}

#[test]
fn stop_external_process_is_noop() {
    let mut registry = LeaseRegistry::new();
    match plan_stop(&mut registry, None, "gemma4-ocr-q8").expect("stop") {
        StopDecision::Answer(result) => assert!(!result.stopped),
        StopDecision::StopProcess => panic!("no recorded process to stop"),
    }
}

#[test]
fn taken_port_with_healthy_server_is_used_as_is() {
    let profile = default_model_profile();
    let out = port_in_use_outcome(&profile, true, true, "/tmp/log".to_string()).expect("usable");
    assert!(!out.started);
    assert!(out.health_ok);
    assert_eq!(out.pid, None);
    assert_eq!(out.base_url, profile.base_url);
    let error = port_in_use_outcome(&profile, true, false, "/tmp/log".to_string()).expect_err("taken");
    assert_eq!(error.code, AppErrorCode::ModelPortAlreadyInUse);
    assert_eq!(error.message, "8080 portu başka bir süreç tarafından kullanılıyor.");
}

#[test]
fn start_outputs_describe_the_server() {
    let profile = default_model_profile();
    let running = already_running_output(&profile, Some(7), true, "l".to_string());
    assert!(!running.started);
    assert_eq!(running.pid, Some(7));
    let started = started_output(&profile, 9, false, "l".to_string());
    assert!(started.started);
    assert_eq!(started.pid, Some(9));
    assert!(!started.health_ok);
    assert_eq!(started.mode, ModelMode::Managed);
}

#[test]
fn flash_attention_is_off_for_multimodal_launches() {
    assert_eq!(flash_attention_setting(true), "off");
    assert_eq!(flash_attention_setting(false), "auto");
}

#[test]
fn stop_with_active_leases_starts_draining() {
    let mut registry = LeaseRegistry::new();
    registry.grant(lease("a"), "fp".to_string());
    registry.grant(lease("b"), "fp".to_string());
    match plan_stop(&mut registry, Some(verified_process()), "p").expect("plan") {
        StopDecision::Answer(out) => {
            assert!(!out.stopped);
            assert!(out.draining);
            assert_eq!(out.active_lease_count, 2);
            assert_eq!(
                out.message,
                "Yerel model şu anda 2 işlem tarafından kullanılıyor. İşlemler bitince durdurulacak."
            );
        }
        StopDecision::StopProcess => panic!("must not stop while leased"),
    }
    assert!(registry.is_draining());
}

#[test]
fn stop_without_process_answers_nothing_to_stop() {
    let mut registry = LeaseRegistry::new();
    match plan_stop(&mut registry, None, "p").expect("plan") {
        StopDecision::Answer(out) => {
            assert!(!out.stopped);
            assert!(!out.draining);
        }
        StopDecision::StopProcess => panic!("nothing to stop"),
    }
}

#[test]
fn unverified_process_is_never_stopped() {
    let mut registry = LeaseRegistry::new();
    let facts = StopFacts { started_by_app: true, unverified: true, has_identity: true, pid: Some(3) };
    let error = match plan_stop(&mut registry, Some(facts), "p") {
        Err(error) => error,
        Ok(_) => panic!("unverified process must be refused"),
    };
    assert_eq!(error.code, AppErrorCode::ModelProcessUnverified);
    assert_eq!(error.technical_details.as_deref(), Some("profile_id=p; pid=Some(3)"));
    let foreign = StopFacts { started_by_app: false, unverified: false, has_identity: true, pid: None };
    assert!(plan_stop(&mut registry, Some(foreign), "p").is_err());
}

#[test]
fn process_without_identity_is_left_running() {
    let mut registry = LeaseRegistry::new();
    let facts = StopFacts { started_by_app: true, unverified: false, has_identity: false, pid: Some(3) };
    match plan_stop(&mut registry, Some(facts), "p").expect("plan") {
        StopDecision::Answer(out) => assert!(!out.stopped),
        StopDecision::StopProcess => panic!("no identity"),
    }
}

#[test]
fn verified_process_is_stopped_and_forgotten() {
    let mut registry = LeaseRegistry::new();
    assert!(matches!(
        plan_stop(&mut registry, Some(verified_process()), "p"),
        Ok(StopDecision::StopProcess)
    ));
    let out = finish_stop(&mut registry);
    assert!(out.stopped);
    assert_eq!(out.active_lease_count, 0);
    assert_eq!(registry.runtime_instance_id(), None);
}

#[test]
fn readiness_backoff_doubles_and_stays_within_the_deadline() {
    assert_eq!(readiness_backoff_millis(0, 10_000), 50);
    assert_eq!(readiness_backoff_millis(249, 10_000), 50);
    assert_eq!(readiness_backoff_millis(250, 10_000), 100);
    assert_eq!(readiness_backoff_millis(500, 10_000), 200);
    assert_eq!(readiness_backoff_millis(750, 10_000), 400);
    assert_eq!(readiness_backoff_millis(1_000, 10_000), 800);
    assert_eq!(readiness_backoff_millis(60_000, 10_000), 800);
    assert_eq!(readiness_backoff_millis(1_000, 30), 30);
}

#[test]
fn readiness_errors_name_the_profile() {
    let timeout = ready_timeout_error("p");
    assert_eq!(timeout.code, AppErrorCode::ModelServerReadyTimeout);
    assert_eq!(timeout.technical_details.as_deref(), Some("profile_id=p"));
    assert_eq!(exited_before_ready_error("p").code, AppErrorCode::ModelServerStartFailed);
}
