use rubrika_models::domain::{
    ModelMode, ModelProfile, ModelRuntimePreset, ModelTaskKind, PrivacyMode,
};
use rubrika_models::errors::{AppError, AppErrorCode};
use rubrika_models::runtime::{
    apply_lease_state, build_runtime_status, check_runtime_request, normalize_model_error,
    runtime_identity, ModelCapability, ModelRuntimeRequest, ModelRuntimeState, ModelStatus,
    ModelUseCase,
};

fn sample_profile() -> ModelProfile {
    ModelProfile {
        id: "gemma".to_string(),
        display_name: "Gemma".to_string(),
        mode: ModelMode::Managed,
        server_path: "/tmp/llama-server".to_string(),
        model_path: "/tmp/model.gguf".to_string(),
        mmproj_path: "/tmp/model.mmproj".to_string(),
        host: "127.0.0.1".to_string(),
        port: 8080,
        base_url: "http://127.0.0.1:8080".to_string(),
        runtime_preset: ModelRuntimePreset::Standard,
        privacy_mode: PrivacyMode::StrictLocal,
    }
}

fn error_with(code: AppErrorCode, message: &str) -> AppError {
    AppError {
        code,
        message: message.to_string(),
        recoverable: true,
        suggested_action: None,
        technical_details: None,
        correlation_id: "c1".to_string(),
    }
}

#[test]
fn step_name_matches_use_case() {
    assert_eq!(ModelUseCase::StudentAnswerOcr.step_name(), "student_answer_ocr");
}

#[test]
fn speaking_profiles_map_to_distinct_platform_tasks() {
    assert_eq!(
        ModelUseCase::GeneralText.platform_task(Some("speaking_transcript_cleanup_12b")),
        ModelTaskKind::SpeakingTranscriptCleanup
    );
    assert_eq!(
        ModelUseCase::SpeakingEvaluation.platform_task(Some("speaking_rubric_evaluation_12b")),
        ModelTaskKind::SpeakingEvaluation
    );
}

#[test]
fn speaking_evaluation_is_classified_as_student_data() {
    assert!(ModelUseCase::SpeakingEvaluation.contains_student_data());
    assert!(ModelUseCase::SpeakingTranscriptCleanup.contains_student_data());
}

#[test]
fn runtime_status_marks_missing_config() {
    let request = ModelRuntimeRequest {
        use_case: ModelUseCase::QuestionTextExtraction,
        capability: ModelCapability::Text,
        requires_mmproj: true,
        timeout_seconds: 30,
    };
    let status = ModelStatus {
        server_path_exists: false,
        model_path_exists: false,
        mmproj_path_exists: false,
        ..Default::default()
    };
    let runtime = build_runtime_status(&request, &sample_profile(), status);
    assert_eq!(runtime.state, ModelRuntimeState::ConfigMissing);
    assert!(!runtime.config_complete);
}

#[test]
fn runtime_status_marks_healthy_when_server_is_ready() {
    let request = ModelRuntimeRequest {
        use_case: ModelUseCase::GeneralText,
        capability: ModelCapability::Text,
        requires_mmproj: false,
        timeout_seconds: 30,
    };
    let status = ModelStatus {
        server_path_exists: true,
        model_path_exists: true,
        mmproj_path_exists: true,
        server_running: true,
        health_ok: true,
        can_start_from_app: false,
        ..Default::default()
    };
    let runtime = build_runtime_status(&request, &sample_profile(), status);
    assert_eq!(runtime.state, ModelRuntimeState::Healthy);
    assert!(runtime.health_ok);
}

fn ready_request(capability: ModelCapability, requires_mmproj: bool) -> ModelRuntimeRequest {
    ModelRuntimeRequest {
        use_case: ModelUseCase::StudentAnswerOcr,
        capability,
        requires_mmproj,
        timeout_seconds: 30,
    }
}

fn configured_status() -> ModelStatus {
    ModelStatus {
        server_path_exists: true,
        model_path_exists: true,
        mmproj_path_exists: true,
        ..Default::default()
    }
}

#[test]
fn runtime_status_reads_every_server_state() {
    let profile = sample_profile();
    let request = ready_request(ModelCapability::Text, true);

    let mut unverified = configured_status();
    unverified.server_running = true;
    unverified.health_ok = true;
    unverified.last_error = Some(error_with(AppErrorCode::ModelProcessIdentityMismatch, "kimlik"));
    let r = build_runtime_status(&request, &profile, unverified);
    assert_eq!(r.state, ModelRuntimeState::Unverified);
    assert_eq!(r.message, "Model hazır.");

    let mut foreign = configured_status();
    foreign.server_running = true;
    let r = build_runtime_status(&request, &profile, foreign);
    assert_eq!(r.state, ModelRuntimeState::PortBlocked);

    let mut starting = configured_status();
    starting.started_by_app = true;
    let r = build_runtime_status(&request, &profile, starting);
    assert_eq!(r.state, ModelRuntimeState::Starting);

    let mut unhealthy = configured_status();
    unhealthy.server_running = true;
    unhealthy.started_by_app = true;
    let r = build_runtime_status(&request, &profile, unhealthy);
    assert_eq!(r.state, ModelRuntimeState::Starting);

    let mut port_error = configured_status();
    port_error.last_error = Some(error_with(AppErrorCode::ModelPortAlreadyInUse, "Port dolu."));
    let r = build_runtime_status(&request, &profile, port_error);
    assert_eq!(r.state, ModelRuntimeState::PortBlocked);
    assert_eq!(r.message, "Port dolu.");

    let mut stopped = configured_status();
    stopped.can_start_from_app = true;
    let r = build_runtime_status(&request, &profile, stopped);
    assert_eq!(r.state, ModelRuntimeState::Stopped);
    assert!(r.autostart_available);
    assert_eq!(r.message, "Model durumu hazır değil.");

    let r = build_runtime_status(&request, &profile, configured_status());
    assert_eq!(r.state, ModelRuntimeState::Failed);
    assert!(!r.autostart_available);
}

#[test]
fn runtime_status_messages_follow_their_priority() {
    let profile = sample_profile();
    let mut disabled = configured_status();
    disabled.start_disabled_reason = Some("Harici profil.".to_string());
    disabled.last_error = Some(error_with(AppErrorCode::UnknownError, "hata"));
    let r = build_runtime_status(&ready_request(ModelCapability::Vision, false), &profile, disabled);
    assert_eq!(r.message, "Harici profil. Vision için mmproj zorunlu değil olarak işaretlendi.");
    assert_eq!(r.host, "127.0.0.1");
    assert_eq!(r.port, 8080);

    let missing = ModelStatus::default();
    let r = build_runtime_status(&ready_request(ModelCapability::Text, false), &profile, missing);
    assert_eq!(r.message, "Model yapılandırması eksik.");
}

#[test]
fn runtime_status_needs_projector_only_when_requested() {
    let profile = sample_profile();
    let mut status = configured_status();
    status.mmproj_path_exists = false;
    let r = build_runtime_status(&ready_request(ModelCapability::Vision, false), &profile, status);
    assert!(r.config_complete);
    let mut status = configured_status();
    status.mmproj_path_exists = false;
    let r = build_runtime_status(&ready_request(ModelCapability::Vision, true), &profile, status);
    assert!(!r.config_complete);
    assert_eq!(r.state, ModelRuntimeState::ConfigMissing);
}

#[test]
fn draining_overrides_the_runtime_state() {
    let profile = sample_profile();
    let r = build_runtime_status(&ready_request(ModelCapability::Text, false), &profile, configured_status());
    let r = apply_lease_state(r, 2, true, Some(40), vec!["scoring".to_string()]);
    assert_eq!(r.state, ModelRuntimeState::Draining);
    assert_eq!(r.message, "Model işlemlerin bitmesi bekleniyor.");
    assert_eq!(r.active_lease_count, 2);
    assert_eq!(r.oldest_lease_age_seconds, Some(40));
    assert_eq!(r.lease_operation_kinds, vec!["scoring".to_string()]);
}

#[test]
fn process_error_codes_are_normalized() {
    let cases = [
        (AppErrorCode::ModelServerPathMissing, AppErrorCode::ModelBinaryMissing),
        (AppErrorCode::ModelModelPathMissing, AppErrorCode::ModelFileMissing),
        (AppErrorCode::ModelMmprojPathMissing, AppErrorCode::ModelMmprojMissing),
        (AppErrorCode::ModelPortAlreadyInUse, AppErrorCode::ModelPortBlocked),
        (AppErrorCode::ModelServerStartFailed, AppErrorCode::ModelStartFailed),
        (AppErrorCode::ModelServerReadyTimeout, AppErrorCode::ModelStartTimeout),
        (AppErrorCode::ModelTimeout, AppErrorCode::ModelTimeout),
    ];
    for (from, to) in cases {
        let normalized = normalize_model_error(error_with(from, "m"));
        assert_eq!(normalized.code, to);
        assert_eq!(normalized.message, "m");
        assert_eq!(normalized.correlation_id, "c1");
    }
}

#[test]
fn use_cases_map_to_their_platform_tasks() {
    assert_eq!(ModelUseCase::RubricPdfImport.platform_task(None), ModelTaskKind::RubricExtraction);
    assert_eq!(ModelUseCase::Scoring.platform_task(Some("gemma4-ocr-q8")), ModelTaskKind::SemanticScoring);
    assert_eq!(ModelUseCase::RubricPdfImport.step_name(), "rubric_extraction");
    assert!(!ModelUseCase::QuestionTextExtraction.contains_student_data());
    assert!(ModelUseCase::Scoring.contains_student_data());
}

#[test]
fn request_gate_refuses_unconfigured_and_private_external_profiles() {
    let mut blank = sample_profile();
    blank.server_path = "  ".to_string();
    blank.model_path = String::new();
    blank.mmproj_path = "\t".to_string();
    let request = ready_request(ModelCapability::Text, false);
    let err = check_runtime_request(&blank, &request, "corr").unwrap_err();
    assert_eq!(err.code, AppErrorCode::ModelConfigMissing);
    assert_eq!(err.correlation_id, "corr");

    let mut external = sample_profile();
    external.mode = ModelMode::External;
    let err = check_runtime_request(&external, &request, "corr").unwrap_err();
    assert_eq!(err.code, AppErrorCode::ModelPrivacyBlocked);

    let general = ModelRuntimeRequest { use_case: ModelUseCase::GeneralText, ..request };
    assert!(check_runtime_request(&external, &general, "corr").is_ok());
    external.privacy_mode = PrivacyMode::ExplicitExternal;
    assert!(check_runtime_request(&external, &request, "corr").is_ok());
}

#[test]
fn legacy_identity_has_no_fingerprints() {
    let identity = runtime_identity(None, sample_profile(), None);
    assert_eq!(identity.profile_id, "gemma");
    assert_eq!(identity.model_family, "legacy");
    assert_eq!(identity.model_path, "/tmp/model.gguf");
    assert_eq!(identity.model_display_name, "Gemma");
    assert!(identity.model_fingerprint.is_none());
    assert!(identity.runtime_fingerprint.is_none());
    let named = runtime_identity(Some("platform-x".to_string()), sample_profile(), None);
    assert_eq!(named.profile_id, "platform-x");
}
