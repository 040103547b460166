use rubrika_models::config::ModelConfigService;
use rubrika_models::domain::{
    BenchmarkGateState, BenchmarkResultSummary, CapabilityManifest, CapabilityProbeResult,
    CapabilitySupport, ModelCapabilityKind, ModelLifecycleState, PrivacyMode, RuntimeDefinition,
};
use rubrika_models::errors::{AppError, AppErrorCode};
use rubrika_models::fingerprint::fingerprint_runtime_definition;
use rubrika_models::platform::{BindTaskInput, ImportModelInput, ModelPlatformService};
use rubrika_models::router::{ModelRouterService, RouteUsageMode};
use rubrika_models::runtime::{platform_selection, ModelStatus, ModelUseCase, PlatformRuntimeSelection};
use rubrika_models::runtime_service::{
    check_runtime_port, check_selection_switch, lease_request_error, resolve_effective_profile,
};

fn config() -> ModelConfigService {
    ModelConfigService::new_with_path("/tmp/rubrika-runtime-service.json".to_string(), None)
}

fn runtime_def() -> RuntimeDefinition {
    RuntimeDefinition {
        id: "rt".to_string(),
        managed: true,
        server_path: "/opt/llama-server".to_string(),
        host: "127.0.0.1".to_string(),
        port: 8080,
        privacy_mode: PrivacyMode::StrictLocal,
    }
}

fn import_input() -> ImportModelInput {
    ImportModelInput {
        id: "m".to_string(),
        family: "gemma".to_string(),
        display_name: "Gemma".to_string(),
        model_path: "/models/gemma.gguf".to_string(),
        mmproj_path: None,
        quantization: None,
        context_limit: None,
        declared_text: true,
        declared_vision: false,
        declared_structured_json: true,
        declared_json_schema: false,
        declared_thinking_control: false,
    }
}

fn manifest(rt: &RuntimeDefinition) -> CapabilityManifest {
    let kinds = [
        ModelCapabilityKind::Text,
        ModelCapabilityKind::Vision,
        ModelCapabilityKind::StructuredJson,
        ModelCapabilityKind::MultimodalProjector,
    ];
    CapabilityManifest {
        model_definition_id: "m".to_string(),
        runtime_definition_id: rt.id.clone(),
        model_fingerprint: "fm".to_string(),
        runtime_fingerprint: fingerprint_runtime_definition(rt),
        verified_at: "2024-01-01T00:00:00Z".to_string(),
        results: kinds
            .iter()
            .map(|kind| CapabilityProbeResult {
                capability: *kind,
                support: CapabilitySupport::Pass,
                detail: None,
                duration_ms: Some(5),
            })
            .collect(),
    }
}

fn production_platform() -> ModelPlatformService {
    let mut svc = ModelPlatformService::new_with_path("/tmp/rubrika-platform.json".to_string(), None);
    let rt = runtime_def();
    svc.upsert_runtime_definition(rt.clone()).unwrap();
    svc.import_model(import_input(), true, true, Ok("fm".to_string())).unwrap();
    svc.bind_task(BindTaskInput {
        task_profile_id: "semantic_scoring".to_string(),
        model_definition_id: "m".to_string(),
        runtime_definition_id: "rt".to_string(),
        allow_experimental_student_data: false,
    })
    .unwrap();
    svc.record_capability_manifest(manifest(&rt)).unwrap();
    svc.record_benchmark_result(BenchmarkResultSummary {
        id: "benchmark-semantic".to_string(),
        task_profile_id: "semantic_scoring".to_string(),
        model_definition_id: "m".to_string(),
        runtime_definition_id: rt.id.clone(),
        model_fingerprint: "fm".to_string(),
        runtime_fingerprint: fingerprint_runtime_definition(&rt),
        state: BenchmarkGateState::Pass,
        evaluated_at: "2024-01-01T00:00:00Z".to_string(),
    })
    .unwrap();
    svc.set_model_lifecycle("m", ModelLifecycleState::Production).unwrap();
    svc
}

#[test]
fn without_a_registry_the_requested_legacy_profile_is_used() {
    let mut legacy = config();
    let active = resolve_effective_profile(&mut legacy, None, None, ModelUseCase::Scoring, "c").unwrap();
    assert_eq!(active.profile.id, "gemma4-ocr-q8");
    assert_eq!(active.profile_id, None);
    assert!(active.route.is_none());
    let named = resolve_effective_profile(
        &mut legacy,
        None,
        Some("speaking_transcript_cleanup_12b"),
        ModelUseCase::SpeakingTranscriptCleanup,
        "c",
    )
    .unwrap();
    assert_eq!(named.profile.id, "speaking_transcript_cleanup_12b");
    assert_eq!(named.profile_id.as_deref(), Some("speaking_transcript_cleanup_12b"));
    let missing = resolve_effective_profile(&mut legacy, None, Some("nope"), ModelUseCase::Scoring, "c")
        .unwrap_err();
    assert_eq!(missing.code, AppErrorCode::ModelProfileNotFound);
}

#[test]
fn an_empty_registry_falls_back_to_legacy_profiles() {
    let mut legacy = config();
    let platform = ModelPlatformService::new_with_path("/tmp/rubrika-platform.json".to_string(), None);
    let effective =
        resolve_effective_profile(&mut legacy, Some(&platform), None, ModelUseCase::Scoring, "c").unwrap();
    assert_eq!(effective.profile.id, "gemma4-ocr-q8");
    assert!(effective.route.is_none());
}

#[test]
fn a_production_route_is_materialized_and_used() {
    let mut legacy = config();
    let platform = production_platform();
    let effective =
        resolve_effective_profile(&mut legacy, Some(&platform), None, ModelUseCase::Scoring, "c").unwrap();
    let route = effective.route.as_ref().expect("route");
    assert_eq!(route.model.id, "m");
    assert_eq!(route.usage_mode, RouteUsageMode::Production);
    let id = effective.profile_id.clone().expect("materialized id");
    assert!(id.starts_with("platform-m-rt-"));
    assert_eq!(effective.profile.id, id);
    assert_eq!(legacy.get_model_profile(&id).unwrap().base_url, "http://127.0.0.1:8080");
    assert_eq!(legacy.active_profile_id(), "gemma4-ocr-q8");
}

#[test]
fn routing_errors_carry_the_request_correlation_id() {
    let mut legacy = config();
    let platform = production_platform();
    let error = resolve_effective_profile(&mut legacy, Some(&platform), None, ModelUseCase::Analysis, "corr-9")
        .unwrap_err();
    assert_eq!(error.code, AppErrorCode::ModelBindingNotFound);
    assert_eq!(error.correlation_id, "corr-9");
}

fn selection(profile: &str, model_fp: &str) -> PlatformRuntimeSelection {
    PlatformRuntimeSelection {
        profile_id: profile.to_string(),
        model_fingerprint: model_fp.to_string(),
        runtime_fingerprint: "rfp".to_string(),
    }
}

#[test]
fn switching_routes_waits_for_active_leases() {
    let desired = selection("p2", "fp2");
    assert_eq!(check_selection_switch(&None, &desired, 3, "c").unwrap(), false);
    assert_eq!(check_selection_switch(&Some(selection("p2", "fp2")), &desired, 3, "c").unwrap(), false);
    assert_eq!(check_selection_switch(&Some(selection("p1", "fp1")), &desired, 0, "c").unwrap(), true);
    let error = check_selection_switch(&Some(selection("p1", "fp1")), &desired, 2, "corr").unwrap_err();
    assert_eq!(error.code, AppErrorCode::ModelRuntimeProfileBusy);
    assert_eq!(error.correlation_id, "corr");
    assert_eq!(
        error.technical_details.as_deref(),
        Some("active_leases=2; current_profile=p1; requested_profile=p2")
    );
}

#[test]
fn unverified_server_on_a_managed_port_is_refused() {
    let platform = production_platform();
    let route = ModelRouterService::new(platform)
        .resolve(rubrika_models::domain::ModelTaskKind::SemanticScoring, RouteUsageMode::Production)
        .unwrap();
    let selected = platform_selection("platform-x", &route);
    assert_eq!(selected.profile_id, "platform-x");
    let mut status = ModelStatus::default();
    status.server_running = true;
    status.started_by_app = false;
    let error = check_runtime_port(&route, &status, "p", "corr").unwrap_err();
    assert_eq!(error.code, AppErrorCode::ModelRuntimePortOccupied);
    assert_eq!(error.correlation_id, "corr");
    status.started_by_app = true;
    assert!(check_runtime_port(&route, &status, "p", "corr").is_ok());
}

#[test]
fn lease_errors_are_normalized_with_the_request_correlation_id() {
    let error = AppError {
        code: AppErrorCode::ModelServerPathMissing,
        message: "m".to_string(),
        recoverable: true,
        suggested_action: None,
        technical_details: Some("d".to_string()),
        correlation_id: "inner".to_string(),
    };
    let mapped = lease_request_error(error, "outer");
    assert_eq!(mapped.code, AppErrorCode::ModelBinaryMissing);
    assert_eq!(mapped.correlation_id, "outer");
    assert_eq!(mapped.technical_details.as_deref(), Some("d"));
}
