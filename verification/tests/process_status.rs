use rubrika_models::config::default_model_profile;
use rubrika_models::domain::{ModelMode, ModelProfile, PrivacyMode};
use rubrika_models::endpoint_privacy::check_endpoint_privacy;
use rubrika_models::errors::{app_error, AppErrorCode};
use rubrika_models::process_status::{
    apply_probe, block_for_privacy, finish_model_status, initial_model_status, observe_process,
    should_probe, with_tail, ServerProbe, StatusFacts,
};
use rubrika_models::runtime::ModelStatus;

fn facts() -> StatusFacts {
    StatusFacts {
        server_path_exists: true,
        model_path_exists: true,
        mmproj_file_exists: false,
        runtime_recorded: false,
        runtime_pid: None,
        runtime_started_by_app: false,
        runtime_marked_unverified: false,
        identity_verified: false,
        log_path: "/logs/model.log".to_string(),
        model_fingerprint: Some("fp".to_string()),
        active_lease_count: 0,
        draining: false,
    }
}

fn healthy() -> ServerProbe {
    ServerProbe {
        server_running: true,
        health_ok: true,
        completion_probe_ok: true,
        health_verified_at: Some("t1".to_string()),
        completion_probe_verified_at: Some("t2".to_string()),
        last_error: None,
    }
}

fn status_of(profile: &ModelProfile, facts: &StatusFacts, unverified: bool, port: bool, probe: Option<ServerProbe>, completion: bool) -> ModelStatus {
    let mut s = initial_model_status(profile, facts);
    s = observe_process(s, unverified, port);
    if should_probe(&s) {
        if let Some(p) = probe {
            s = apply_probe(s, p, completion);
        }
    }
    finish_model_status(s, profile)
}

fn codes(s: &ModelStatus) -> Vec<&str> {
    s.suggested_actions.iter().map(|a| a.code.as_str()).collect()
}

#[test]
fn stopped_managed_server_can_be_started() {
    let profile = default_model_profile();
    let s = status_of(&profile, &facts(), false, false, None, false);
    assert!(!s.server_running);
    assert!(s.can_start_from_app);
    assert!(!s.can_stop_from_app);
    assert!(!s.start_requires_mode_change);
    assert_eq!(codes(&s), vec!["start_model_server"]);
    assert_eq!(s.warnings, vec!["Model sunucusu kapalı görünüyor."]);
    assert_eq!(s.log_path.as_deref(), Some("/logs/model.log"));
    assert!(s.last_error.is_none());
}

#[test]
fn status_reflects_mode_setting() {
    let mut profile = default_model_profile();
    profile.mode = ModelMode::Managed;
    let s = status_of(&profile, &facts(), false, false, None, false);
    assert_eq!(s.mode, ModelMode::Managed);
}

#[test]
fn external_profile_must_switch_mode_to_start() {
    let mut profile = default_model_profile();
    profile.mode = ModelMode::External;
    let s = status_of(&profile, &facts(), false, false, None, false);
    assert_eq!(s.mode, ModelMode::External);
    assert!(s.start_requires_mode_change);
    assert_eq!(codes(&s), vec!["switch_to_managed_and_start", "open_model_status_page"]);
}

#[test]
fn missing_files_block_start() {
    let profile = default_model_profile();
    let mut f = facts();
    f.model_path_exists = false;
    let s = status_of(&profile, &f, false, false, None, false);
    assert!(!s.can_start_from_app);
    assert_eq!(s.start_disabled_reason.as_deref(), Some("Model, server veya mmproj dosyası eksik."));
    assert_eq!(s.last_error.unwrap().code, AppErrorCode::ModelModelPathMissing);
    let mut f = facts();
    f.server_path_exists = false;
    let s = status_of(&profile, &f, false, true, Some(healthy()), false);
    assert_eq!(s.last_error.as_ref().unwrap().code, AppErrorCode::ModelServerPathMissing);
    assert!(!s.health_ok, "no probe without a server binary");
}

#[test]
fn our_running_server_is_probed_and_stoppable() {
    let profile = default_model_profile();
    let mut f = facts();
    f.runtime_recorded = true;
    f.runtime_pid = Some(77);
    f.runtime_started_by_app = true;
    f.identity_verified = true;
    let s = status_of(&profile, &f, false, true, Some(healthy()), true);
    assert_eq!(s.managed_process_pid, Some(77));
    assert!(s.server_running && s.health_ok && s.completion_probe_ok);
    assert!(s.can_stop_from_app);
    assert!(!s.can_start_from_app);
    assert_eq!(s.start_disabled_reason.as_deref(), Some("Model sunucusu zaten çalışıyor."));
    assert_eq!(s.warnings, vec!["RubrikaV3 tarafından başlatıldı."]);
    let s = status_of(&profile, &f, false, true, Some(healthy()), false);
    assert!(s.health_ok && !s.completion_probe_ok);
}

#[test]
fn foreign_server_on_the_port_is_reported() {
    let profile = default_model_profile();
    let mut probe = healthy();
    probe.health_ok = false;
    let s = status_of(&profile, &facts(), false, true, Some(probe), false);
    assert!(s.server_running);
    assert!(!s.can_stop_from_app);
    assert_eq!(
        s.warnings,
        vec!["Port başka bir süreç tarafından kullanılıyor; bu süreç harici görünüyor."]
    );
    assert_eq!(s.last_error.unwrap().code, AppErrorCode::ModelHealthFailed);
}

#[test]
fn unverified_process_is_never_ours() {
    let profile = default_model_profile();
    let mut f = facts();
    f.runtime_recorded = true;
    f.runtime_started_by_app = true;
    f.identity_verified = false;
    let s = status_of(&profile, &f, true, false, None, false);
    assert!(!s.started_by_app);
    assert!(!s.can_stop_from_app);
    assert_eq!(s.last_error.unwrap().code, AppErrorCode::ModelProcessUnverified);
    assert_eq!(
        s.warnings[0],
        "Kayıtlı model sürecinin kimliği doğrulanamadı; RubrikaV3 bu sürece dokunmaz."
    );
}

#[test]
fn privacy_block_stops_everything() {
    let profile = default_model_profile();
    let error = app_error(AppErrorCode::ModelPrivacyBlocked, "blocked", None, None);
    let s = block_for_privacy(initial_model_status(&profile, &facts()), error);
    assert!(s.privacy_blocked);
    assert_eq!(s.privacy_block_reason.as_deref(), Some("blocked"));
    assert!(!s.can_start_from_app && !s.can_stop_from_app);
    assert_eq!(codes(&s), vec!["use_managed_local_model"]);
    assert_eq!(s.last_error.unwrap().code, AppErrorCode::ModelPrivacyBlocked);
}

#[test]
fn log_tail_is_appended_to_details() {
    let e = app_error(AppErrorCode::ModelStartFailed, "m", Some("d".to_string()), None);
    let e = with_tail(e, "line".to_string());
    assert_eq!(e.technical_details.as_deref(), Some("d\n\nLog Tail:\nline"));
    let e = app_error(AppErrorCode::ModelStartFailed, "m", None, None);
    assert_eq!(with_tail(e, "x".to_string()).technical_details.as_deref(), Some("Log Tail:\nx"));
    let e = app_error(AppErrorCode::ModelStartFailed, "m", None, None);
    assert!(with_tail(e, String::new()).technical_details.is_none());
}

#[test]
fn legacy_public_external_profile_returns_privacy_blocked_status() {
    let mut profile = default_model_profile();
    profile.mode = ModelMode::External;
    profile.base_url = "https://model.example.test".to_string();
    profile.host = "model.example.test".to_string();
    profile.privacy_mode = PrivacyMode::StrictLocal;
    let error = check_endpoint_privacy(&profile.base_url, profile.privacy_mode).unwrap_err();
    let status = block_for_privacy(initial_model_status(&profile, &facts()), error);
    assert!(status.privacy_blocked);
    assert_eq!(
        status.last_error.as_ref().map(|error| &error.code),
        Some(&AppErrorCode::ModelPrivacyBlocked)
    );
    assert!(status.suggested_actions.iter().any(|action| action.code == "use_managed_local_model"));
}
