//! Readying the model server for a workflow step that needs it: what the
//! status says to do, the facts recorded about the attempt, and the error a
//! failed attempt is reported with.
use vstd::prelude::*;
use crate::domain::ModelMode;
use crate::errors::{app_error, AppError, AppErrorCode};
use crate::runtime::ModelStatus;

verus! {

/// What readying the model for a step does next.
#[derive(PartialEq, Eq, Structural, Clone, Copy, Debug)]
pub enum ModelStepPlan {
    /// The server answers and is healthy: go on.
    Ready,
    /// The server cannot be started from the application: fail the step.
    NotStartable,
    /// Start the managed server, switching the profile to managed first
    /// when asked.
    Start { switch_to_managed: bool },
}

/// Whether a status shows a running, healthy server.
pub open spec fn spec_serving(status: ModelStatus) -> bool {
    status.server_running && status.health_ok
}

pub fn serving(status: &ModelStatus) -> (r: bool)
    ensures
        r == spec_serving(*status),
{
    status.server_running && status.health_ok
}

/// Chooses what readying the model for a step does, from the current
/// status.
pub fn plan_model_step(status: &ModelStatus) -> (r: ModelStepPlan)
    ensures
        r == (if spec_serving(*status) {
            ModelStepPlan::Ready
        } else if !status.can_start_from_app {
            ModelStepPlan::NotStartable
        } else {
            ModelStepPlan::Start { switch_to_managed: status.start_requires_mode_change }
        }),
{
    if serving(status) {
        ModelStepPlan::Ready
    } else if !status.can_start_from_app {
        ModelStepPlan::NotStartable
    } else {
        ModelStepPlan::Start { switch_to_managed: status.start_requires_mode_change }
    }
}

/// What is recorded about readying the model for a step.
#[derive(Debug)]
pub struct ModelStepFacts {
    pub step: String,
    pub model_required: bool,
    pub model_mode: ModelMode,
    pub health_ok_before_start: bool,
    pub attempted_managed_start: bool,
    pub health_ok_after_start: bool,
    pub model_log_path: Option<String>,
    pub error_code: Option<AppErrorCode>,
    pub error_message: Option<String>,
}

/// The facts of a step's attempt: the status before, whether a managed
/// start was tried, the status after it and the start error, if any.
pub fn model_step_facts(
    step_name: &str,
    before: &ModelStatus,
    attempted_managed_start: bool,
    after: Option<&ModelStatus>,
    error: Option<&AppError>,
) -> (f: ModelStepFacts)
    ensures
        f.step@ == step_name@,
        f.model_required,
        f.model_mode == before.mode,
        f.health_ok_before_start == spec_serving(*before),
        f.attempted_managed_start == attempted_managed_start,
        f.health_ok_after_start == (after matches Some(a) && spec_serving(*a)),
        f.model_log_path == before.log_path,
        f.error_code == (match error {
            Some(e) => Some(e.code),
            None => None::<AppErrorCode>,
        }),
        match error {
            Some(e) => f.error_message matches Some(m) && m@ == e.message@,
            None => f.error_message is None,
        },
{
    let health_ok_after_start = match after {
        Some(a) => serving(a),
        None => false,
    };
    let (error_code, error_message) = match error {
        Some(e) => (Some(e.code), Some(e.message.clone())),
        None => (None, None),
    };
    ModelStepFacts {
        step: step_name.to_owned(),
        model_required: true,
        model_mode: before.mode,
        health_ok_before_start: serving(before),
        attempted_managed_start,
        health_ok_after_start,
        model_log_path: crate::domain::clone_opt_string(&before.log_path),
        error_code,
        error_message,
    }
}

/// The error a step fails with when the server cannot be started from the
/// application: the status's last error, or a not-running error, carrying
/// the step's recorded facts as its details.
pub fn not_startable_error(status: ModelStatus, details: String) -> (e: AppError)
    ensures
        match status.last_error {
            Some(last) => e == (AppError { technical_details: Some(details), ..last }),
            None => e.code == AppErrorCode::ModelServerNotRunning && e.technical_details == Some(details),
        },
{
    match status.last_error {
        Some(last) => AppError { technical_details: Some(details), ..last },
        None => app_error(
            AppErrorCode::ModelServerNotRunning,
            "Yerel model sunucusu çalışmıyor.",
            Some(details),
            Some("Model sunucusunu manuel başlatın veya managed moda geçin.".to_owned()),
        ),
    }
}

/// The message and advice of a failed start.
pub open spec fn start_failed_message() -> Seq<char> {
    "Yerel model sunucusu başlatılamadı."@
}

pub open spec fn start_failed_advice() -> Seq<char> {
    "Model ayarlarını kontrol edin veya modeli elle başlatın."@
}

/// The error a step fails with when the start went through but the server
/// is still not healthy: the new status's last error (or a fresh one),
/// re-labelled as a failed start and carrying the step's facts.
pub fn start_not_ready_error(ready_status: ModelStatus, details: String) -> (e: AppError)
    ensures
        e.code == AppErrorCode::ModelServerStartFailed,
        e.message@ == start_failed_message(),
        e.suggested_action matches Some(a) && a@ == start_failed_advice(),
        e.technical_details == Some(details),
        ready_status.last_error matches Some(last) ==> e.recoverable == last.recoverable
            && e.correlation_id == last.correlation_id,
{
    let message = "Yerel model sunucusu başlatılamadı.";
    let advice = "Model ayarlarını kontrol edin veya modeli elle başlatın.";
    proof {
        reveal_strlit("Yerel model sunucusu başlatılamadı.");
        reveal_strlit("Model ayarlarını kontrol edin veya modeli elle başlatın.");
    }
    let mut error = match ready_status.last_error {
        Some(last) => last,
        None => app_error(AppErrorCode::ModelServerStartFailed, message, None, Some(advice.to_owned())),
    };
    error.code = AppErrorCode::ModelServerStartFailed;
    error.message = message.to_owned();
    error.suggested_action = Some(advice.to_owned());
    error.technical_details = Some(details);
    error
}

/// The details of a start failure: the step's facts, then the start
/// error's own details when it has any.
pub open spec fn spec_merged_details(step_details: Seq<char>, start_details: Option<String>) -> Seq<char> {
    match start_details {
        Some(d) if d@.len() > 0 => {
            let head = if step_details.len() > 0 {
                step_details + "\n\n"@
            } else {
                step_details
            };
            head + "start_error_details="@ + d@
        },
        _ => step_details,
    }
}

/// The error a step fails with when the start itself failed: a failed
/// start with the start error's correlation id, whose details hold the
/// step's facts and the start error's details.
pub fn start_failed_error(start_error: AppError, step_details: String) -> (e: AppError)
    ensures
        e.code == AppErrorCode::ModelServerStartFailed,
        e.message@ == start_failed_message(),
        e.recoverable,
        e.suggested_action matches Some(a) && a@ == start_failed_advice(),
        e.technical_details matches Some(d) && d@ == spec_merged_details(
            step_details@,
            start_error.technical_details,
        ),
        e.correlation_id == start_error.correlation_id,
{
    proof {
        reveal_strlit("Yerel model sunucusu başlatılamadı.");
        reveal_strlit("Model ayarlarını kontrol edin veya modeli elle başlatın.");
        reveal_strlit("\n\n");
        reveal_strlit("start_error_details=");
    }
    let mut details = step_details;
    match &start_error.technical_details {
        Some(d) => {
            if !d.as_str().is_empty() {
                if !details.as_str().is_empty() {
                    details.append("\n\n");
                }
                details.append("start_error_details=");
                details.append(d.as_str());
            }
        },
        None => {},
    }
    AppError {
        code: AppErrorCode::ModelServerStartFailed,
        message: "Yerel model sunucusu başlatılamadı.".to_owned(),
        recoverable: true,
        suggested_action: Some("Model ayarlarını kontrol edin veya modeli elle başlatın.".to_owned()),
        technical_details: Some(details),
        correlation_id: start_error.correlation_id,
    }
}

} // verus!
