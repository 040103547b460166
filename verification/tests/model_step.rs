use rubrika_models::domain::ModelMode;
use rubrika_models::errors::{AppError, AppErrorCode};
use rubrika_models::model_step::{
    model_step_facts, not_startable_error, plan_model_step, start_failed_error,
    start_not_ready_error, ModelStepPlan,
};
use rubrika_models::runtime::ModelStatus;

fn error(code: AppErrorCode, details: Option<&str>) -> AppError {
    AppError {
        code,
        message: "boom".to_string(),
        recoverable: false,
        suggested_action: None,
        technical_details: details.map(str::to_string),
        correlation_id: "corr-1".to_string(),
    }
}

#[test]
fn healthy_server_is_ready() {
    let mut status = ModelStatus::default();
    status.server_running = true;
    status.health_ok = true;
    assert_eq!(plan_model_step(&status), ModelStepPlan::Ready);
}

#[test]
fn server_that_cannot_start_fails_the_step() {
    let status = ModelStatus::default();
    assert_eq!(plan_model_step(&status), ModelStepPlan::NotStartable);
    let e = not_startable_error(status, "facts".to_string());
    assert_eq!(e.code, AppErrorCode::ModelServerNotRunning);
    assert_eq!(e.technical_details.as_deref(), Some("facts"));
}

#[test]
fn last_error_is_reported_with_step_details() {
    let mut status = ModelStatus::default();
    status.last_error = Some(error(AppErrorCode::ModelPrivacyBlocked, Some("old")));
    let e = not_startable_error(status, "facts".to_string());
    assert_eq!(e.code, AppErrorCode::ModelPrivacyBlocked);
    assert_eq!(e.correlation_id, "corr-1");
    assert_eq!(e.technical_details.as_deref(), Some("facts"));
}

#[test]
fn startable_server_is_started_switching_mode_when_asked() {
    let mut status = ModelStatus::default();
    status.can_start_from_app = true;
    status.start_requires_mode_change = true;
    assert_eq!(plan_model_step(&status), ModelStepPlan::Start { switch_to_managed: true });
    status.start_requires_mode_change = false;
    assert_eq!(plan_model_step(&status), ModelStepPlan::Start { switch_to_managed: false });
}

#[test]
fn step_facts_record_the_attempt() {
    let mut before = ModelStatus::default();
    before.mode = ModelMode::External;
    before.log_path = Some("/logs/m.log".to_string());
    let mut after = ModelStatus::default();
    after.server_running = true;
    after.health_ok = true;
    let start_error = error(AppErrorCode::ModelServerStartFailed, None);
    let facts = model_step_facts("scoring", &before, true, Some(&after), Some(&start_error));
    assert_eq!(facts.step, "scoring");
    assert!(facts.model_required);
    assert_eq!(facts.model_mode, ModelMode::External);
    assert!(!facts.health_ok_before_start);
    assert!(facts.attempted_managed_start);
    assert!(facts.health_ok_after_start);
    assert_eq!(facts.model_log_path.as_deref(), Some("/logs/m.log"));
    assert_eq!(facts.error_code, Some(AppErrorCode::ModelServerStartFailed));
    assert_eq!(facts.error_message.as_deref(), Some("boom"));
    let none = model_step_facts("scoring", &before, false, None, None);
    assert!(!none.health_ok_after_start);
    assert_eq!(none.error_code, None);
}

#[test]
fn unhealthy_after_start_is_a_failed_start() {
    let mut ready = ModelStatus::default();
    ready.last_error = Some(error(AppErrorCode::ModelHealthFailed, Some("x")));
    let e = start_not_ready_error(ready, "facts".to_string());
    assert_eq!(e.code, AppErrorCode::ModelServerStartFailed);
    assert_eq!(e.message, "Yerel model sunucusu başlatılamadı.");
    assert_eq!(e.correlation_id, "corr-1");
    assert_eq!(e.technical_details.as_deref(), Some("facts"));
    let fresh = start_not_ready_error(ModelStatus::default(), "f".to_string());
    assert_eq!(fresh.code, AppErrorCode::ModelServerStartFailed);
}

#[test]
fn start_error_details_are_merged() {
    let e = start_failed_error(error(AppErrorCode::ModelBinaryMissing, Some("no binary")), "facts".to_string());
    assert_eq!(e.code, AppErrorCode::ModelServerStartFailed);
    assert!(e.recoverable);
    assert_eq!(e.correlation_id, "corr-1");
    assert_eq!(e.technical_details.as_deref(), Some("facts\n\nstart_error_details=no binary"));
    let plain = start_failed_error(error(AppErrorCode::ModelBinaryMissing, Some("")), "facts".to_string());
    assert_eq!(plain.technical_details.as_deref(), Some("facts"));
    let bare = start_failed_error(error(AppErrorCode::ModelBinaryMissing, Some("d")), String::new());
    assert_eq!(bare.technical_details.as_deref(), Some("start_error_details=d"));
}
