//! Model runtime requests and their status: which platform task a use case
//! runs, how a server status reads as a runtime state, and the identity and
//! lease metadata of a resolved route.
use vstd::prelude::*;
use crate::domain::{ModelMode, ModelProfile, ModelTaskKind, PrivacyMode};
use crate::errors::{app_error, concat, AppError, AppErrorCode};
use crate::fingerprint::{fingerprint_runtime_definition, spec_runtime_fingerprint};
use crate::router::ResolvedModelRoute;
use crate::text::str_eq;

verus! {

#[derive(PartialEq, Eq, Structural, Clone, Copy, Debug)]
pub enum ModelUseCase {
    QuestionTextExtraction,
    RubricPdfImport,
    StudentAnswerOcr,
    StudentAnswerOcrIssueCorrection,
    Scoring,
    SpeakingTranscriptCleanup,
    SpeakingEvaluation,
    Analysis,
    GeneralText,
}

impl ModelUseCase {
    pub open spec fn spec_step_name(self) -> Seq<char> {
        match self {
            ModelUseCase::QuestionTextExtraction => "question_text_extraction"@,
            ModelUseCase::RubricPdfImport => "rubric_extraction"@,
            ModelUseCase::StudentAnswerOcr => "student_answer_ocr"@,
            ModelUseCase::StudentAnswerOcrIssueCorrection => "student_answer_ocr_issue_correction"@,
            ModelUseCase::Scoring => "scoring"@,
            ModelUseCase::SpeakingTranscriptCleanup => "speaking_transcript_cleanup"@,
            ModelUseCase::SpeakingEvaluation => "speaking_evaluation"@,
            ModelUseCase::Analysis => "analysis"@,
            ModelUseCase::GeneralText => "general_text"@,
        }
    }

    /// The pipeline step name of the use case.
    pub fn step_name(&self) -> (r: &'static str)
        ensures
            r@ == self.spec_step_name(),
    {
        match self {
            ModelUseCase::QuestionTextExtraction => "question_text_extraction",
            ModelUseCase::RubricPdfImport => "rubric_extraction",
            ModelUseCase::StudentAnswerOcr => "student_answer_ocr",
            ModelUseCase::StudentAnswerOcrIssueCorrection => "student_answer_ocr_issue_correction",
            ModelUseCase::Scoring => "scoring",
            ModelUseCase::SpeakingTranscriptCleanup => "speaking_transcript_cleanup",
            ModelUseCase::SpeakingEvaluation => "speaking_evaluation",
            ModelUseCase::Analysis => "analysis",
            ModelUseCase::GeneralText => "general_text",
        }
    }

    pub open spec fn spec_contains_student_data(self) -> bool {
        match self {
            ModelUseCase::StudentAnswerOcr | ModelUseCase::StudentAnswerOcrIssueCorrection
            | ModelUseCase::Scoring | ModelUseCase::SpeakingTranscriptCleanup
            | ModelUseCase::SpeakingEvaluation => true,
            _ => false,
        }
    }

    /// Whether the use case sends student data to the model.
    pub fn contains_student_data(&self) -> (r: bool)
        ensures
            r == self.spec_contains_student_data(),
    {
        match self {
            ModelUseCase::StudentAnswerOcr | ModelUseCase::StudentAnswerOcrIssueCorrection
            | ModelUseCase::Scoring | ModelUseCase::SpeakingTranscriptCleanup
            | ModelUseCase::SpeakingEvaluation => true,
            _ => false,
        }
    }

    pub open spec fn spec_default_task(self) -> ModelTaskKind {
        match self {
            ModelUseCase::QuestionTextExtraction => ModelTaskKind::QuestionTextExtraction,
            ModelUseCase::RubricPdfImport => ModelTaskKind::RubricExtraction,
            ModelUseCase::StudentAnswerOcr => ModelTaskKind::StudentAnswerOcr,
            ModelUseCase::StudentAnswerOcrIssueCorrection => ModelTaskKind::StudentAnswerOcrIssueCorrection,
            ModelUseCase::Scoring => ModelTaskKind::SemanticScoring,
            ModelUseCase::SpeakingTranscriptCleanup => ModelTaskKind::SpeakingTranscriptCleanup,
            ModelUseCase::SpeakingEvaluation => ModelTaskKind::SpeakingEvaluation,
            ModelUseCase::Analysis => ModelTaskKind::Analysis,
            ModelUseCase::GeneralText => ModelTaskKind::GeneralText,
        }
    }

    /// The platform task the use case runs; the two former speaking profile
    /// ids still select their speaking tasks.
    pub open spec fn spec_platform_task(self, requested_profile_id: Option<Seq<char>>) -> ModelTaskKind {
        if requested_profile_id == Some("speaking_transcript_cleanup_12b"@) {
            ModelTaskKind::SpeakingTranscriptCleanup
        } else if requested_profile_id == Some("speaking_rubric_evaluation_12b"@) {
            ModelTaskKind::SpeakingEvaluation
        } else {
            self.spec_default_task()
        }
    }

    pub fn platform_task(&self, requested_profile_id: Option<&str>) -> (r: ModelTaskKind)
        ensures
            r == self.spec_platform_task(
                match requested_profile_id {
                    Some(s) => Some(s@),
                    None => None,
                },
            ),
    {
        match requested_profile_id {
            Some(id) => {
                if str_eq(id, "speaking_transcript_cleanup_12b") {
                    return ModelTaskKind::SpeakingTranscriptCleanup;
                }
                if str_eq(id, "speaking_rubric_evaluation_12b") {
                    return ModelTaskKind::SpeakingEvaluation;
                }
            },
            None => {},
        }
        match self {
            ModelUseCase::QuestionTextExtraction => ModelTaskKind::QuestionTextExtraction,
            ModelUseCase::RubricPdfImport => ModelTaskKind::RubricExtraction,
            ModelUseCase::StudentAnswerOcr => ModelTaskKind::StudentAnswerOcr,
            ModelUseCase::StudentAnswerOcrIssueCorrection => ModelTaskKind::StudentAnswerOcrIssueCorrection,
            ModelUseCase::Scoring => ModelTaskKind::SemanticScoring,
            ModelUseCase::SpeakingTranscriptCleanup => ModelTaskKind::SpeakingTranscriptCleanup,
            ModelUseCase::SpeakingEvaluation => ModelTaskKind::SpeakingEvaluation,
            ModelUseCase::Analysis => ModelTaskKind::Analysis,
            ModelUseCase::GeneralText => ModelTaskKind::GeneralText,
        }
    }
}

#[derive(PartialEq, Eq, Structural, Clone, Copy, Debug)]
pub enum ModelCapability {
    Text,
    Vision,
}

/// A request to run one model operation.
#[derive(Clone, Copy, Debug)]
pub struct ModelRuntimeRequest {
    pub use_case: ModelUseCase,
    pub capability: ModelCapability,
    pub requires_mmproj: bool,
    pub timeout_seconds: u64,
}

#[derive(PartialEq, Eq, Structural, Clone, Copy, Debug)]
pub enum ModelRuntimeState {
    Stopped,
    Starting,
    Loading,
    Healthy,
    Unhealthy,
    Failed,
    ConfigMissing,
    PortBlocked,
    Draining,
    Stopping,
    Unverified,
}

/// An action the status screen offers.
#[derive(Debug)]
pub struct ModelSuggestedAction {
    pub code: String,
    pub label: String,
}

/// What the process manager reports of one model server.
#[derive(Debug)]
pub struct ModelStatus {
    pub profile_id: String,
    pub display_name: String,
    pub mode: ModelMode,
    pub base_url: String,
    pub server_path_exists: bool,
    pub model_path_exists: bool,
    pub mmproj_path_exists: bool,
    pub server_running: bool,
    pub health_ok: bool,
    pub completion_probe_ok: bool,
    pub health_verified_at: Option<String>,
    pub completion_probe_verified_at: Option<String>,
    pub privacy_mode: PrivacyMode,
    pub privacy_blocked: bool,
    pub privacy_block_reason: Option<String>,
    pub model_fingerprint: Option<String>,
    pub managed_process_pid: Option<u32>,
    pub started_by_app: bool,
    pub active_lease_count: usize,
    pub draining: bool,
    pub log_path: Option<String>,
    pub last_error: Option<AppError>,
    pub warnings: Vec<String>,
    pub can_start_from_app: bool,
    pub can_stop_from_app: bool,
    pub start_requires_mode_change: bool,
    pub start_disabled_reason: Option<String>,
    pub suggested_actions: Vec<ModelSuggestedAction>,
}

impl Default for ModelStatus {
    /// A status with nothing found and nothing running.
    fn default() -> (r: Self)
        ensures
            r.profile_id@ == Seq::<char>::empty(),
            r.display_name@ == Seq::<char>::empty(),
            r.mode == ModelMode::Managed,
            r.base_url@ == Seq::<char>::empty(),
            !r.server_path_exists,
            !r.model_path_exists,
            !r.mmproj_path_exists,
            !r.server_running,
            !r.health_ok,
            !r.completion_probe_ok,
            r.health_verified_at is None,
            r.completion_probe_verified_at is None,
            r.privacy_mode == PrivacyMode::StrictLocal,
            !r.privacy_blocked,
            r.privacy_block_reason is None,
            r.model_fingerprint is None,
            r.managed_process_pid is None,
            !r.started_by_app,
            r.active_lease_count == 0,
            !r.draining,
            r.log_path is None,
            r.last_error is None,
            r.warnings@.len() == 0,
            !r.can_start_from_app,
            !r.can_stop_from_app,
            !r.start_requires_mode_change,
            r.start_disabled_reason is None,
            r.suggested_actions@.len() == 0,
    {
        ModelStatus {
            profile_id: String::new(),
            display_name: String::new(),
            mode: ModelMode::Managed,
            base_url: String::new(),
            server_path_exists: false,
            model_path_exists: false,
            mmproj_path_exists: false,
            server_running: false,
            health_ok: false,
            completion_probe_ok: false,
            health_verified_at: None,
            completion_probe_verified_at: None,
            privacy_mode: PrivacyMode::StrictLocal,
            privacy_blocked: false,
            privacy_block_reason: None,
            model_fingerprint: None,
            managed_process_pid: None,
            started_by_app: false,
            active_lease_count: 0,
            draining: false,
            log_path: None,
            last_error: None,
            warnings: Vec::new(),
            can_start_from_app: false,
            can_stop_from_app: false,
            start_requires_mode_change: false,
            start_disabled_reason: None,
            suggested_actions: Vec::new(),
        }
    }
}

/// The runtime status shown for a model request.
#[derive(Debug)]
pub struct ModelRuntimeStatus {
    pub health_ok: bool,
    pub state: ModelRuntimeState,
    pub managed_pid: Option<u32>,
    pub host: String,
    pub port: u16,
    pub port_listening: bool,
    pub port_health_ok: bool,
    pub llama_server_binary_exists: bool,
    pub model_file_exists: bool,
    pub mmproj_file_exists: bool,
    pub config_complete: bool,
    pub autostart_available: bool,
    pub message: String,
    pub active_lease_count: usize,
    pub draining: bool,
    pub oldest_lease_age_seconds: Option<i64>,
    pub lease_operation_kinds: Vec<String>,
}

// ---------------------------------------------------------------------------
// Reading a server status
// ---------------------------------------------------------------------------
/// The server binary and the model file exist, and so does the projector
/// when the request needs one.
pub open spec fn spec_config_complete(request: ModelRuntimeRequest, status: ModelStatus) -> bool {
    status.server_path_exists && status.model_path_exists && (!request.requires_mmproj
        || status.mmproj_path_exists)
}

pub open spec fn last_error_is(status: ModelStatus, code: AppErrorCode) -> bool {
    status.last_error matches Some(e) && e.code == code
}

/// The runtime state a server status reads as.
pub open spec fn spec_runtime_state(request: ModelRuntimeRequest, status: ModelStatus) -> ModelRuntimeState {
    if !spec_config_complete(request, status) {
        ModelRuntimeState::ConfigMissing
    } else if last_error_is(status, AppErrorCode::ModelProcessUnverified) || last_error_is(
        status,
        AppErrorCode::ModelProcessIdentityMismatch,
    ) {
        ModelRuntimeState::Unverified
    } else if status.server_running && status.health_ok {
        ModelRuntimeState::Healthy
    } else if status.server_running && !status.health_ok && !status.started_by_app {
        ModelRuntimeState::PortBlocked
    } else if status.started_by_app && !status.health_ok {
        ModelRuntimeState::Starting
    } else if status.server_running && !status.health_ok {
        ModelRuntimeState::Unhealthy
    } else if last_error_is(status, AppErrorCode::ModelPortAlreadyInUse) {
        ModelRuntimeState::PortBlocked
    } else if status.can_start_from_app {
        ModelRuntimeState::Stopped
    } else {
        ModelRuntimeState::Failed
    }
}

/// The message a server status reads as: ready, the reason starting is
/// disabled, the last error, missing configuration or not ready; with a
/// note when a vision request does not require the projector.
pub open spec fn spec_runtime_message(request: ModelRuntimeRequest, status: ModelStatus) -> Seq<char> {
    let base = if status.server_running && status.health_ok {
        "Model hazır."@
    } else if status.start_disabled_reason is Some {
        status.start_disabled_reason.unwrap()@
    } else if status.last_error is Some {
        status.last_error.unwrap().message@
    } else if !spec_config_complete(request, status) {
        "Model yapılandırması eksik."@
    } else {
        "Model durumu hazır değil."@
    };
    if request.capability == ModelCapability::Vision && !request.requires_mmproj {
        base + " Vision için mmproj zorunlu değil olarak işaretlendi."@
    } else {
        base
    }
}

fn error_code_is(e: &Option<AppError>, code: AppErrorCode) -> (r: bool)
    ensures
        r == (*e matches Some(x) && x.code == code),
{
    match e {
        Some(x) => x.code == code,
        None => false,
    }
}

/// The runtime status of a request on a profile, from the server status:
/// no leases and no draining yet.
pub fn build_runtime_status(
    request: &ModelRuntimeRequest,
    profile: &ModelProfile,
    status: ModelStatus,
) -> (r: ModelRuntimeStatus)
    ensures
        r.health_ok == status.health_ok,
        r.state == spec_runtime_state(*request, status),
        r.managed_pid == status.managed_process_pid,
        r.host == profile.host,
        r.port == profile.port,
        r.port_listening == status.server_running,
        r.port_health_ok == status.health_ok,
        r.llama_server_binary_exists == status.server_path_exists,
        r.model_file_exists == status.model_path_exists,
        r.mmproj_file_exists == status.mmproj_path_exists,
        r.config_complete == spec_config_complete(*request, status),
        r.autostart_available == (status.can_start_from_app && spec_config_complete(
            *request,
            status,
        )),
        r.message@ == spec_runtime_message(*request, status),
        r.active_lease_count == 0,
        !r.draining,
        r.oldest_lease_age_seconds is None,
        r.lease_operation_kinds@.len() == 0,
{
    let config_complete = status.server_path_exists && status.model_path_exists && (
    !request.requires_mmproj || status.mmproj_path_exists);
    let host = profile.host.clone();
    let port = profile.port;
    let autostart_available = status.can_start_from_app && config_complete;
    let state = if !config_complete {
        ModelRuntimeState::ConfigMissing
    } else if error_code_is(&status.last_error, AppErrorCode::ModelProcessUnverified)
        || error_code_is(&status.last_error, AppErrorCode::ModelProcessIdentityMismatch) {
        ModelRuntimeState::Unverified
    } else if status.server_running && status.health_ok {
        ModelRuntimeState::Healthy
    } else if status.server_running && !status.health_ok && !status.started_by_app {
        ModelRuntimeState::PortBlocked
    } else if status.started_by_app && !status.health_ok {
        ModelRuntimeState::Starting
    } else if status.server_running && !status.health_ok {
        ModelRuntimeState::Unhealthy
    } else if error_code_is(&status.last_error, AppErrorCode::ModelPortAlreadyInUse) {
        ModelRuntimeState::PortBlocked
    } else if status.can_start_from_app {
        ModelRuntimeState::Stopped
    } else {
        ModelRuntimeState::Failed
    };
    let mut message = if status.server_running && status.health_ok {
        "Model hazır.".to_owned()
    } else {
        match &status.start_disabled_reason {
            Some(reason) => reason.clone(),
            None => match &status.last_error {
                Some(error) => error.message.clone(),
                None => if !config_complete {
                    "Model yapılandırması eksik.".to_owned()
                } else {
                    "Model durumu hazır değil.".to_owned()
                },
            },
        }
    };
    if request.capability == ModelCapability::Vision && !request.requires_mmproj {
        message.append(" Vision için mmproj zorunlu değil olarak işaretlendi.");
    }
    ModelRuntimeStatus {
        health_ok: status.health_ok,
        state,
        managed_pid: status.managed_process_pid,
        host,
        port,
        port_listening: status.server_running,
        port_health_ok: status.health_ok,
        llama_server_binary_exists: status.server_path_exists,
        model_file_exists: status.model_path_exists,
        mmproj_file_exists: status.mmproj_path_exists,
        config_complete,
        autostart_available,
        message,
        active_lease_count: 0,
        draining: false,
        oldest_lease_age_seconds: None,
        lease_operation_kinds: Vec::new(),
    }
}

/// The lease state of the process manager folded into a runtime status: a
/// draining manager turns the status into `Draining`.
pub fn apply_lease_state(
    runtime: ModelRuntimeStatus,
    active_lease_count: usize,
    draining: bool,
    oldest_lease_age_seconds: Option<i64>,
    lease_operation_kinds: Vec<String>,
) -> (r: ModelRuntimeStatus)
    ensures
        r.active_lease_count == active_lease_count,
        r.draining == draining,
        r.oldest_lease_age_seconds == oldest_lease_age_seconds,
        r.lease_operation_kinds == lease_operation_kinds,
        r.state == (if draining { ModelRuntimeState::Draining } else { runtime.state }),
        draining ==> r.message@ == "Model işlemlerin bitmesi bekleniyor."@,
        !draining ==> r.message == runtime.message,
        r.health_ok == runtime.health_ok,
        r.managed_pid == runtime.managed_pid,
        r.host == runtime.host,
        r.port == runtime.port,
        r.port_listening == runtime.port_listening,
        r.port_health_ok == runtime.port_health_ok,
        r.llama_server_binary_exists == runtime.llama_server_binary_exists,
        r.model_file_exists == runtime.model_file_exists,
        r.mmproj_file_exists == runtime.mmproj_file_exists,
        r.config_complete == runtime.config_complete,
        r.autostart_available == runtime.autostart_available,
{
    let mut r = runtime;
    r.active_lease_count = active_lease_count;
    r.draining = draining;
    r.oldest_lease_age_seconds = oldest_lease_age_seconds;
    r.lease_operation_kinds = lease_operation_kinds;
    if draining {
        r.state = ModelRuntimeState::Draining;
        r.message = "Model işlemlerin bitmesi bekleniyor.".to_owned();
        proof {
            reveal_strlit("Model işlemlerin bitmesi bekleniyor.");
        }
    }
    r
}

pub open spec fn spec_normalized_code(code: AppErrorCode) -> AppErrorCode {
    match code {
        AppErrorCode::ModelServerPathMissing => AppErrorCode::ModelBinaryMissing,
        AppErrorCode::ModelModelPathMissing => AppErrorCode::ModelFileMissing,
        AppErrorCode::ModelMmprojPathMissing => AppErrorCode::ModelMmprojMissing,
        AppErrorCode::ModelPortAlreadyInUse => AppErrorCode::ModelPortBlocked,
        AppErrorCode::ModelServerStartFailed => AppErrorCode::ModelStartFailed,
        AppErrorCode::ModelServerReadyTimeout => AppErrorCode::ModelStartTimeout,
        other => other,
    }
}

/// Maps the process manager's error codes to the codes shown for model
/// operations; everything else is kept.
pub fn normalize_model_error(error: AppError) -> (r: AppError)
    ensures
        r == (AppError { code: spec_normalized_code(error.code), ..error }),
{
    let mut error = error;
    error.code = match error.code {
        AppErrorCode::ModelServerPathMissing => AppErrorCode::ModelBinaryMissing,
        AppErrorCode::ModelModelPathMissing => AppErrorCode::ModelFileMissing,
        AppErrorCode::ModelMmprojPathMissing => AppErrorCode::ModelMmprojMissing,
        AppErrorCode::ModelPortAlreadyInUse => AppErrorCode::ModelPortBlocked,
        AppErrorCode::ModelServerStartFailed => AppErrorCode::ModelStartFailed,
        AppErrorCode::ModelServerReadyTimeout => AppErrorCode::ModelStartTimeout,
        other => other,
    };
    error
}

// ---------------------------------------------------------------------------
// Request gates
// ---------------------------------------------------------------------------
pub open spec fn blank(s: Seq<char>) -> bool {
    crate::text::trim(s).len() == 0
}

/// Refusals of a request on a profile before a lease is taken: a profile
/// with no server, model or projector path configured, and a strict-local
/// external profile asked to carry student data. The base URL's own privacy
/// check is not part of this gate.
pub open spec fn spec_request_block(profile: ModelProfile, use_case: ModelUseCase) -> Option<AppErrorCode> {
    if blank(profile.server_path@) && blank(profile.model_path@) && blank(profile.mmproj_path@) {
        Some(AppErrorCode::ModelConfigMissing)
    } else if profile.privacy_mode == PrivacyMode::StrictLocal && profile.mode == ModelMode::External
        && use_case.spec_contains_student_data() {
        Some(AppErrorCode::ModelPrivacyBlocked)
    } else {
        None
    }
}

/// Whether the request may go ahead on the profile (the configuration and
/// student-data gates of a lease request).
pub fn check_runtime_request(
    profile: &ModelProfile,
    operation: &ModelRuntimeRequest,
    correlation_id: &str,
) -> (r: Result<(), AppError>)
    ensures
        match spec_request_block(*profile, operation.use_case) {
            Some(code) => r matches Err(e) && e.code == code,
            None => r is Ok,
        },
{
    let server_blank = crate::text::trim_str(profile.server_path.as_str());
    let model_blank = crate::text::trim_str(profile.model_path.as_str());
    let mmproj_blank = crate::text::trim_str(profile.mmproj_path.as_str());
    if server_blank.as_str().is_empty() && model_blank.as_str().is_empty()
        && mmproj_blank.as_str().is_empty() {
        let mut details = concat("step=", operation.use_case.step_name());
        details.append("; profile_id=");
        details.append(profile.id.as_str());
        details.append("; server_path_empty=true; model_path_empty=true; mmproj_path_empty=true");
        let mut e = app_error(
            AppErrorCode::ModelConfigMissing,
            "Model yapılandırması eksik.",
            Some(details),
            Some("Model profilini yapılandırın.".to_owned()),
        );
        e.correlation_id = correlation_id.to_owned();
        return Err(e);
    }
    if profile.privacy_mode == PrivacyMode::StrictLocal && profile.mode == ModelMode::External
        && operation.use_case.contains_student_data() {
        let mut details = concat(
            "strict_local_external_student_data_blocked; profile_id=",
            profile.id.as_str(),
        );
        details.append("; use_case=");
        details.append(use_case_name(operation.use_case));
        let mut e = app_error(
            AppErrorCode::ModelPrivacyBlocked,
            "Öğrenci verisi taşıyan model işlemi yalnızca güvenli yerel profilde çalıştırılabilir.",
            Some(details),
            Some(
                "Yönetilen yerel model profilini seçin veya harici model kullanımını Ayarlar'dan açıkça onaylayın.".to_owned(),
            ),
        );
        e.correlation_id = correlation_id.to_owned();
        return Err(e);
    }
    Ok(())
}

/// The name of a use case, as its debug rendering prints it.
pub open spec fn spec_use_case_name(u: ModelUseCase) -> Seq<char> {
    match u {
        ModelUseCase::QuestionTextExtraction => "QuestionTextExtraction"@,
        ModelUseCase::RubricPdfImport => "RubricPdfImport"@,
        ModelUseCase::StudentAnswerOcr => "StudentAnswerOcr"@,
        ModelUseCase::StudentAnswerOcrIssueCorrection => "StudentAnswerOcrIssueCorrection"@,
        ModelUseCase::Scoring => "Scoring"@,
        ModelUseCase::SpeakingTranscriptCleanup => "SpeakingTranscriptCleanup"@,
        ModelUseCase::SpeakingEvaluation => "SpeakingEvaluation"@,
        ModelUseCase::Analysis => "Analysis"@,
        ModelUseCase::GeneralText => "GeneralText"@,
    }
}

/// The name of a use case, as its debug rendering prints it.
fn use_case_name(u: ModelUseCase) -> (r: &'static str)
    ensures
        r@ == spec_use_case_name(u),
{
    match u {
        ModelUseCase::QuestionTextExtraction => "QuestionTextExtraction",
        ModelUseCase::RubricPdfImport => "RubricPdfImport",
        ModelUseCase::StudentAnswerOcr => "StudentAnswerOcr",
        ModelUseCase::StudentAnswerOcrIssueCorrection => "StudentAnswerOcrIssueCorrection",
        ModelUseCase::Scoring => "Scoring",
        ModelUseCase::SpeakingTranscriptCleanup => "SpeakingTranscriptCleanup",
        ModelUseCase::SpeakingEvaluation => "SpeakingEvaluation",
        ModelUseCase::Analysis => "Analysis",
        ModelUseCase::GeneralText => "GeneralText",
    }
}

// ---------------------------------------------------------------------------
// Route identity
// ---------------------------------------------------------------------------
/// The route a runtime lease serves.
#[derive(Debug)]
pub struct ModelRouteLeaseMetadata {
    pub task_profile_id: String,
    pub binding_id: String,
    pub model_definition_id: String,
    pub runtime_definition_id: String,
    pub model_fingerprint: String,
    pub runtime_fingerprint: String,
}

/// The lease metadata of a resolved route.
pub fn route_lease_metadata(route: &ResolvedModelRoute) -> (r: ModelRouteLeaseMetadata)
    ensures
        r.task_profile_id == route.task_profile.id,
        r.binding_id == route.binding.id,
        r.model_definition_id == route.model.id,
        r.runtime_definition_id == route.runtime.id,
        r.model_fingerprint == route.model.model_fingerprint,
        r.runtime_fingerprint@ == spec_runtime_fingerprint(route.runtime),
{
    ModelRouteLeaseMetadata {
        task_profile_id: route.task_profile.id.clone(),
        binding_id: route.binding.id.clone(),
        model_definition_id: route.model.id.clone(),
        runtime_definition_id: route.runtime.id.clone(),
        model_fingerprint: route.model.model_fingerprint.clone(),
        runtime_fingerprint: fingerprint_runtime_definition(&route.runtime),
    }
}

/// The platform route a materialized profile currently runs.
#[derive(Debug)]
pub struct PlatformRuntimeSelection {
    pub profile_id: String,
    pub model_fingerprint: String,
    pub runtime_fingerprint: String,
}

/// The selection a materialized profile of a route stands for.
pub fn platform_selection(profile_id: &str, route: &ResolvedModelRoute) -> (r: PlatformRuntimeSelection)
    ensures
        r.profile_id@ == profile_id@,
        r.model_fingerprint == route.model.model_fingerprint,
        r.runtime_fingerprint@ == spec_runtime_fingerprint(route.runtime),
{
    PlatformRuntimeSelection {
        profile_id: profile_id.to_owned(),
        model_fingerprint: route.model.model_fingerprint.clone(),
        runtime_fingerprint: fingerprint_runtime_definition(&route.runtime),
    }
}

/// Two selections name the same profile and fingerprints.
pub open spec fn same_selection(a: PlatformRuntimeSelection, b: PlatformRuntimeSelection) -> bool {
    a.profile_id@ == b.profile_id@ && a.model_fingerprint@ == b.model_fingerprint@
        && a.runtime_fingerprint@ == b.runtime_fingerprint@
}

/// Whether switching to `desired` has to stop the runtime of `current`.
pub fn selection_changes(current: &Option<PlatformRuntimeSelection>, desired: &PlatformRuntimeSelection) -> (r: bool)
    ensures
        r == (*current matches Some(c) && !same_selection(c, *desired)),
{
    match current {
        Some(c) => !(str_eq(c.profile_id.as_str(), desired.profile_id.as_str()) && str_eq(
            c.model_fingerprint.as_str(),
            desired.model_fingerprint.as_str(),
        ) && str_eq(c.runtime_fingerprint.as_str(), desired.runtime_fingerprint.as_str())),
        None => false,
    }
}

/// A resolved model/runtime identity, computed without starting a runtime.
/// Platform routes carry their fingerprints; legacy profiles leave them
/// empty.
#[derive(Debug)]
pub struct ModelRuntimeIdentity {
    pub profile_id: String,
    pub base_url: String,
    pub model_path: String,
    pub model_display_name: String,
    pub model_family: String,
    pub model_fingerprint: Option<String>,
    pub runtime_fingerprint: Option<String>,
}

/// The identity of a resolved profile: the route's model and fingerprints
/// when a platform route was resolved, the legacy profile's otherwise.
pub fn runtime_identity(
    effective_profile_id: Option<String>,
    profile: ModelProfile,
    route: Option<&ResolvedModelRoute>,
) -> (r: ModelRuntimeIdentity)
    ensures
        r.profile_id == (match effective_profile_id {
            Some(id) => id,
            None => profile.id,
        }),
        r.base_url == profile.base_url,
        match route {
            Some(route) => {
                &&& r.model_path == route.model.model_path
                &&& r.model_display_name == route.model.display_name
                &&& r.model_family == route.model.family
                &&& r.model_fingerprint == Some(route.model.model_fingerprint)
                &&& r.runtime_fingerprint matches Some(f) && f@ == spec_runtime_fingerprint(
                    route.runtime,
                )
            },
            None => {
                &&& r.model_path == profile.model_path
                &&& r.model_display_name == profile.display_name
                &&& r.model_family@ == "legacy"@
                &&& r.model_fingerprint is None
                &&& r.runtime_fingerprint is None
            },
        },
{
    let profile_id = match effective_profile_id {
        Some(id) => id,
        None => profile.id.clone(),
    };
    match route {
        Some(route) => ModelRuntimeIdentity {
            profile_id,
            base_url: profile.base_url,
            model_path: route.model.model_path.clone(),
            model_display_name: route.model.display_name.clone(),
            model_family: route.model.family.clone(),
            model_fingerprint: Some(route.model.model_fingerprint.clone()),
            runtime_fingerprint: Some(fingerprint_runtime_definition(&route.runtime)),
        },
        None => {
            let r = ModelRuntimeIdentity {
                profile_id,
                base_url: profile.base_url,
                model_path: profile.model_path,
                model_display_name: profile.display_name,
                model_family: "legacy".to_owned(),
                model_fingerprint: None,
                runtime_fingerprint: None,
            };
            proof {
                reveal_strlit("legacy");
            }
            r
        },
    }
}

// ---------------------------------------------------------------------------
// Process manager records
// ---------------------------------------------------------------------------
/// A runtime lease granted by the process manager.
#[derive(Debug)]
pub struct RuntimeLeaseGrant {
    pub lease_id: String,
    pub runtime_instance_id: String,
    pub profile_id: String,
    pub profile_fingerprint: String,
    pub model_fingerprint: Option<String>,
    pub base_url: String,
    pub correlation_id: String,
    pub active_lease_count: usize,
}

/// The leases the process manager holds.
#[derive(Debug)]
pub struct RuntimeLeaseDiagnostics {
    pub active_lease_count: usize,
    pub oldest_lease_age_seconds: Option<i64>,
    pub operation_kinds: Vec<String>,
}

/// The outcome of starting a model server.
#[derive(Debug)]
pub struct StartModelServerOutput {
    pub started: bool,
    pub mode: ModelMode,
    pub pid: Option<u32>,
    pub base_url: String,
    pub log_path: String,
    pub health_ok: bool,
    pub message: String,
}

/// The outcome of stopping a model server.
#[derive(Debug)]
pub struct StopModelServerOutput {
    pub stopped: bool,
    pub draining: bool,
    pub active_lease_count: usize,
    pub message: String,
}

} // verus!
