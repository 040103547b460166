use rubrika_models::domain::{
    BenchmarkGateState, BenchmarkResultSummary, CapabilityManifest, CapabilityProbeResult,
    CapabilitySupport, MetadataEntry, ModelCapabilityKind, ModelLifecycleState,
    ModelPlatformConfig, ModelTaskKind, PrivacyMode, RuntimeDefinition,
};
use rubrika_models::errors::AppErrorCode;
use rubrika_models::fingerprint::fingerprint_runtime_definition;
use rubrika_models::platform::{
    benchmark_result_id, binding_id, default_platform_config, join_strings,
    new_benchmark_result_id, task_kind_for_id, BindTaskInput, ImportModelInput,
    ModelPlatformService,
};
use rubrika_models::router::{is_loopback_host, ModelRouterService, RouteUsageMode};

fn runtime(id: &str, host: &str) -> RuntimeDefinition {
    RuntimeDefinition {
        id: id.to_string(),
        managed: true,
        server_path: "/opt/llama-server".to_string(),
        host: host.to_string(),
        port: 8080,
        privacy_mode: PrivacyMode::StrictLocal,
    }
}

fn import_input(id: &str) -> ImportModelInput {
    ImportModelInput {
        id: id.to_string(),
        family: " Gemma ".to_string(),
        display_name: "  ".to_string(),
        model_path: "  /models/gemma.gguf ".to_string(),
        mmproj_path: Some("   ".to_string()),
        quantization: Some("Q8_0".to_string()),
        context_limit: Some(8192),
        declared_text: false,
        declared_vision: false,
        declared_structured_json: true,
        declared_json_schema: false,
        declared_thinking_control: true,
    }
}

fn service() -> ModelPlatformService {
    ModelPlatformService::new_with_path("/tmp/model_platform.json".to_string(), None)
}

fn passing_manifest(model_id: &str, runtime: &RuntimeDefinition, model_fp: &str) -> CapabilityManifest {
    let kinds = [
        ModelCapabilityKind::Text,
        ModelCapabilityKind::Vision,
        ModelCapabilityKind::StructuredJson,
        ModelCapabilityKind::MultimodalProjector,
    ];
    CapabilityManifest {
        model_definition_id: model_id.to_string(),
        runtime_definition_id: runtime.id.clone(),
        model_fingerprint: model_fp.to_string(),
        runtime_fingerprint: fingerprint_runtime_definition(runtime),
        verified_at: "2024-01-01T00:00:00Z".to_string(),
        results: kinds
            .iter()
            .map(|kind| CapabilityProbeResult {
                capability: *kind,
                support: CapabilitySupport::Pass,
                detail: None,
                duration_ms: Some(5),
            })
            .collect(),
    }
}

fn passing_benchmark(task: &str, model_id: &str, runtime: &RuntimeDefinition, model_fp: &str) -> BenchmarkResultSummary {
    BenchmarkResultSummary {
        id: format!("benchmark-{task}"),
        task_profile_id: task.to_string(),
        model_definition_id: model_id.to_string(),
        runtime_definition_id: runtime.id.clone(),
        model_fingerprint: model_fp.to_string(),
        runtime_fingerprint: fingerprint_runtime_definition(runtime),
        state: BenchmarkGateState::Pass,
        evaluated_at: "2024-01-01T00:00:00Z".to_string(),
    }
}

fn bind(task: &str, model: &str, runtime: &str) -> BindTaskInput {
    BindTaskInput {
        task_profile_id: task.to_string(),
        model_definition_id: model.to_string(),
        runtime_definition_id: runtime.to_string(),
        allow_experimental_student_data: false,
    }
}

#[test]
fn default_registry_has_every_task_profile() {
    let config = default_platform_config();
    assert_eq!(config.schema_version, "1");
    assert_eq!(config.task_profiles.len(), 9);
    assert_eq!(config.task_profiles[0].id, "question_text_extraction");
    assert!(config.task_profiles[0].required_capabilities.vision);
    assert!(!config.task_profiles[4].required_capabilities.vision);
    assert_eq!(task_kind_for_id("speaking_evaluation"), Some(ModelTaskKind::SpeakingEvaluation));
    assert_eq!(task_kind_for_id("unknown"), None);
}

#[test]
fn import_normalizes_the_request() {
    let mut svc = service();
    let model = svc
        .import_model(import_input("  Gemma 4 / 12B "), true, false, Ok("fp-file".to_string()))
        .unwrap();
    assert_eq!(model.id, "gemma-4-12b");
    assert_eq!(model.family, "gemma");
    assert_eq!(model.display_name, "gemma-4-12b");
    assert_eq!(model.model_path, "/models/gemma.gguf");
    assert_eq!(model.mmproj_path, None);
    assert!(model.capabilities.text);
    assert!(model.capabilities.thinking_control);
    assert!(!model.capabilities.multimodal_projector_required);
    assert_eq!(model.lifecycle_state, ModelLifecycleState::Imported);
    assert_eq!(model.model_fingerprint, "fp-file");
    assert_eq!(model.metadata.len(), 1);
    assert_eq!(model.metadata[0].key, "definitionFingerprint");
    assert_eq!(model.metadata[0].value.len(), 64);
    assert_eq!(svc.snapshot().models.len(), 1);
}

#[test]
fn import_reports_each_refusal() {
    let mut svc = service();
    let err = svc.import_model(import_input("m"), false, true, Ok("fp".to_string())).unwrap_err();
    assert_eq!(err.code, AppErrorCode::ModelFileMissing);
    let mut vision = import_input("m");
    vision.declared_vision = true;
    vision.mmproj_path = Some(" /models/mmproj.gguf ".to_string());
    let err = svc.import_model(vision, true, false, Ok("fp".to_string())).unwrap_err();
    assert_eq!(err.code, AppErrorCode::ModelMmprojMissing);
    let err = svc.import_model(import_input(" !! "), true, true, Ok("fp".to_string())).unwrap_err();
    assert_eq!(err.code, AppErrorCode::ModelConfigMissing);
    let read_error = rubrika_models::errors::app_error(AppErrorCode::FileReadFailed, "okunamadı", None, None);
    let err = svc.import_model(import_input("m"), true, true, Err(read_error)).unwrap_err();
    assert_eq!(err.code, AppErrorCode::FileReadFailed);
    assert!(svc.snapshot().models.is_empty());
}

#[test]
fn runtime_ids_must_not_be_blank() {
    let mut svc = service();
    let err = svc.upsert_runtime_definition(runtime("  ", "127.0.0.1")).unwrap_err();
    assert_eq!(err.code, AppErrorCode::ModelConfigMissing);
    svc.upsert_runtime_definition(runtime("rt", "127.0.0.1")).unwrap();
    svc.upsert_runtime_definition(runtime("rt", "localhost")).unwrap();
    assert_eq!(svc.snapshot().runtimes.len(), 1);
    assert_eq!(svc.snapshot().runtimes[0].host, "localhost");
}

#[test]
fn binding_a_task_leaves_one_enabled_binding() {
    let mut svc = service();
    svc.upsert_runtime_definition(runtime("rt", "127.0.0.1")).unwrap();
    svc.import_model(import_input("a"), true, true, Ok("fa".to_string())).unwrap();
    svc.import_model(import_input("b"), true, true, Ok("fb".to_string())).unwrap();
    let first = svc.bind_task(bind("general_text", "a", "rt")).unwrap();
    assert_eq!(first.id, "binding-general_text-a-rt");
    assert_eq!(first.id, binding_id("general_text", "a", "rt"));
    let second = svc.bind_task(bind("general_text", "b", "rt")).unwrap();
    let snapshot = svc.snapshot();
    let enabled: Vec<_> = snapshot
        .bindings
        .iter()
        .filter(|b| b.task_profile_id == "general_text" && b.enabled)
        .collect();
    assert_eq!(enabled.len(), 1);
    assert_eq!(enabled[0].id, second.id);
    assert_eq!(snapshot.bindings.len(), 2);

    let err = svc.bind_task(bind("nope", "a", "rt")).unwrap_err();
    assert_eq!(err.code, AppErrorCode::ModelProfileNotFound);
    let err = svc.bind_task(bind("general_text", "zz", "rt")).unwrap_err();
    assert_eq!(err.code, AppErrorCode::ModelProfileNotFound);

    svc.disable_binding(&second.id).unwrap();
    assert!(svc.snapshot().bindings.iter().all(|b| !b.enabled));
    assert_eq!(svc.disable_binding("missing").unwrap_err().code, AppErrorCode::ModelProfileNotFound);
}

#[test]
fn promotion_gate_lists_missing_evidence_and_then_passes() {
    let mut svc = service();
    let rt = runtime("rt", "127.0.0.1");
    svc.upsert_runtime_definition(rt.clone()).unwrap();
    svc.import_model(import_input("m"), true, true, Ok("fm".to_string())).unwrap();

    let unassigned = svc.production_promotion_decision("m").unwrap();
    assert!(!unassigned.allowed);
    assert_eq!(unassigned.reasons, vec!["Model herhangi bir task'a atanmış değil.".to_string()]);
    assert!(unassigned.checked_task_profiles.is_empty());

    svc.bind_task(bind("general_text", "m", "rt")).unwrap();
    let missing = svc.production_promotion_decision("m").unwrap();
    assert!(!missing.allowed);
    assert_eq!(missing.checked_task_profiles, vec!["general_text".to_string()]);
    assert_eq!(
        missing.reasons,
        vec![
            "general_text için güncel capability probe yok.".to_string(),
            "general_text için PASS benchmark sonucu yok.".to_string(),
        ]
    );
    let err = svc.set_model_lifecycle("m", ModelLifecycleState::Production).unwrap_err();
    assert_eq!(err.code, AppErrorCode::ModelConfigMissing);
    assert_eq!(
        err.technical_details,
        Some("general_text için güncel capability probe yok.; general_text için PASS benchmark sonucu yok.".to_string())
    );

    let mut weak = passing_manifest("m", &rt, "fm");
    weak.results.retain(|r| r.capability != ModelCapabilityKind::StructuredJson);
    svc.record_capability_manifest(weak).unwrap();
    let weak_decision = svc.production_promotion_decision("m").unwrap();
    assert_eq!(weak_decision.reasons[0], "general_text için required capability sonucu PASS değil.");

    svc.record_capability_manifest(passing_manifest("m", &rt, "fm")).unwrap();
    assert_eq!(svc.snapshot().capability_manifests.len(), 1);
    svc.record_benchmark_result(passing_benchmark("general_text", "m", &rt, "fm")).unwrap();
    let decision = svc.production_promotion_decision("m").unwrap();
    assert!(decision.allowed);
    assert!(decision.reasons.is_empty());
    assert_eq!(decision.model_definition_id, "m");

    let promoted = svc.set_model_lifecycle("m", ModelLifecycleState::Production).unwrap();
    assert_eq!(promoted.lifecycle_state, ModelLifecycleState::Production);
    assert_eq!(svc.snapshot().models[0].lifecycle_state, ModelLifecycleState::Production);

    assert_eq!(
        svc.production_promotion_decision("ghost").unwrap_err().code,
        AppErrorCode::ModelProfileNotFound
    );
}

#[test]
fn stale_fingerprints_are_refused() {
    let mut svc = service();
    let rt = runtime("rt", "127.0.0.1");
    svc.upsert_runtime_definition(rt.clone()).unwrap();
    svc.import_model(import_input("m"), true, true, Ok("fm".to_string())).unwrap();
    let err = svc.record_capability_manifest(passing_manifest("m", &rt, "old")).unwrap_err();
    assert_eq!(err.code, AppErrorCode::ModelConfigMissing);
    let err = svc.record_benchmark_result(passing_benchmark("general_text", "m", &rt, "old")).unwrap_err();
    assert_eq!(err.code, AppErrorCode::ModelConfigMissing);
    let err = svc.record_benchmark_result(passing_benchmark("nope", "m", &rt, "fm")).unwrap_err();
    assert_eq!(err.code, AppErrorCode::ModelProfileNotFound);
    let err = svc.record_capability_manifest(passing_manifest("zz", &rt, "fm")).unwrap_err();
    assert_eq!(err.code, AppErrorCode::ModelProfileNotFound);
}

#[test]
fn reimport_drops_results_of_the_model() {
    let mut svc = service();
    let rt = runtime("rt", "127.0.0.1");
    svc.upsert_runtime_definition(rt.clone()).unwrap();
    svc.import_model(import_input("m"), true, true, Ok("fm".to_string())).unwrap();
    svc.record_capability_manifest(passing_manifest("m", &rt, "fm")).unwrap();
    svc.record_benchmark_result(passing_benchmark("general_text", "m", &rt, "fm")).unwrap();
    svc.record_benchmark_result(passing_benchmark("general_text", "m", &rt, "fm")).unwrap();
    assert_eq!(svc.snapshot().benchmark_results.len(), 1);
    svc.import_model(import_input("m"), true, true, Ok("fm2".to_string())).unwrap();
    let snapshot = svc.snapshot();
    assert_eq!(snapshot.models.len(), 1);
    assert_eq!(snapshot.models[0].model_fingerprint, "fm2");
    assert!(snapshot.capability_manifests.is_empty());
    assert!(snapshot.benchmark_results.is_empty());
}

#[test]
fn probe_marks_move_the_lifecycle() {
    let mut svc = service();
    let rt = runtime("rt", "127.0.0.1");
    svc.import_model(import_input("m"), true, true, Ok("fm".to_string())).unwrap();
    svc.mark_probe_started("m").unwrap();
    assert_eq!(svc.snapshot().models[0].lifecycle_state, ModelLifecycleState::Probing);
    let mut manifest = passing_manifest("m", &rt, "fm");
    svc.mark_probe_finished("m", &manifest).unwrap();
    assert_eq!(svc.snapshot().models[0].lifecycle_state, ModelLifecycleState::Compatible);
    manifest.results[1].support = CapabilitySupport::Fail;
    svc.mark_probe_finished("m", &manifest).unwrap();
    assert_eq!(svc.snapshot().models[0].lifecycle_state, ModelLifecycleState::Unsupported);
    svc.mark_probe_failed("m").unwrap();
    assert_eq!(svc.snapshot().models[0].lifecycle_state, ModelLifecycleState::ProbeFailed);
    assert_eq!(svc.mark_probe_failed("x").unwrap_err().code, AppErrorCode::ModelProfileNotFound);
    let changed = svc.set_model_lifecycle("m", ModelLifecycleState::Experimental).unwrap();
    assert_eq!(changed.lifecycle_state, ModelLifecycleState::Experimental);
}

#[test]
fn replace_config_accepts_only_the_current_schema() {
    let mut svc = service();
    let mut config = default_platform_config();
    config.schema_version = "2".to_string();
    assert_eq!(svc.replace_config(config).unwrap_err().code, AppErrorCode::ModelConfigMissing);
    let mut config: ModelPlatformConfig = default_platform_config();
    config.task_profiles.truncate(2);
    svc.replace_config(config).unwrap();
    assert_eq!(svc.snapshot().task_profiles.len(), 2);
    assert_eq!(svc.config_path(), "/tmp/model_platform.json");
}

#[test]
fn stored_registry_with_another_schema_falls_back_to_default() {
    let mut stored = default_platform_config();
    stored.schema_version = "0".to_string();
    let svc = ModelPlatformService::new_with_path("p".to_string(), Some(stored));
    assert_eq!(svc.snapshot().schema_version, "1");
    assert_eq!(svc.snapshot().task_profiles.len(), 9);
}

#[test]
fn benchmark_ids_carry_normalized_ids_and_time() {
    assert_eq!(benchmark_result_id("General Text", "Gemma 4", 1700000000123), "benchmark-general-text-gemma-4-1700000000123");
    assert_eq!(benchmark_result_id("a", "b", -5), "benchmark-a-b--5");
    let fresh = new_benchmark_result_id("Task", "Model");
    assert!(fresh.starts_with("benchmark-task-model-"));
    assert!(fresh.len() > "benchmark-task-model-".len());
}

#[test]
fn joined_reasons_use_the_separator() {
    assert_eq!(join_strings(&vec![], "; "), "");
    assert_eq!(join_strings(&vec!["a".to_string()], "; "), "a");
    assert_eq!(join_strings(&vec!["a".to_string(), "b".to_string(), "c".to_string()], "; "), "a; b; c");
}

#[test]
fn grandfathered_models_skip_the_benchmark_requirement() {
    let mut svc = service();
    let rt = runtime("rt", "127.0.0.1");
    svc.upsert_runtime_definition(rt.clone()).unwrap();
    let mut model = svc.import_model(import_input("m"), true, true, Ok("fm".to_string())).unwrap();
    model.metadata.push(MetadataEntry { key: "baselineVerified".to_string(), value: "true".to_string() });
    svc.upsert_model_definition(model);
    svc.bind_task(bind("general_text", "m", "rt")).unwrap();
    svc.record_capability_manifest(passing_manifest("m", &rt, "fm")).unwrap();
    let decision = svc.production_promotion_decision("m").unwrap();
    assert!(decision.allowed);
}

fn production_service(host: &str) -> (ModelPlatformService, RuntimeDefinition) {
    let mut svc = service();
    let rt = runtime("rt", host);
    svc.upsert_runtime_definition(rt.clone()).unwrap();
    svc.import_model(import_input("m"), true, true, Ok("fm".to_string())).unwrap();
    svc.bind_task(bind("semantic_scoring", "m", "rt")).unwrap();
    svc.record_capability_manifest(passing_manifest("m", &rt, "fm")).unwrap();
    svc.record_benchmark_result(passing_benchmark("semantic_scoring", "m", &rt, "fm")).unwrap();
    (svc, rt)
}

#[test]
fn router_resolves_a_production_route() {
    let (mut svc, _rt) = production_service("127.0.0.1");
    svc.set_model_lifecycle("m", ModelLifecycleState::Production).unwrap();
    let router = ModelRouterService::new(svc);
    let route = router.resolve(ModelTaskKind::SemanticScoring, RouteUsageMode::Production).unwrap();
    assert_eq!(route.task_profile.id, "semantic_scoring");
    assert_eq!(route.model.id, "m");
    assert_eq!(route.runtime.id, "rt");
    assert!(route.benchmark_verified);
    assert_eq!(route.usage_mode, RouteUsageMode::Production);
    let meta = rubrika_models::runtime::route_lease_metadata(&route);
    assert_eq!(meta.task_profile_id, "semantic_scoring");
    assert_eq!(meta.model_definition_id, "m");
    assert_eq!(meta.runtime_definition_id, "rt");
    assert_eq!(meta.model_fingerprint, "fm");
    assert_eq!(meta.runtime_fingerprint, fingerprint_runtime_definition(&route.runtime));
    assert_eq!(
        rubrika_models::platform::required_capabilities_for_task(&route.task_profile),
        route.task_profile.required_capabilities
    );
    let err = router.resolve(ModelTaskKind::Analysis, RouteUsageMode::Production).unwrap_err();
    assert_eq!(err.code, AppErrorCode::ModelBindingNotFound);
}

#[test]
fn router_keeps_student_data_on_loopback_hosts() {
    let (mut svc, _rt) = production_service("10.0.0.5");
    svc.set_model_lifecycle("m", ModelLifecycleState::Production).unwrap();
    let router = ModelRouterService::new(svc);
    let err = router.resolve(ModelTaskKind::SemanticScoring, RouteUsageMode::Production).unwrap_err();
    assert_eq!(err.code, AppErrorCode::ModelPrivacyBlocked);
}

#[test]
fn router_refuses_non_production_models_for_production() {
    let (svc, _rt) = production_service("localhost");
    let router = ModelRouterService::new(svc);
    let err = router.resolve(ModelTaskKind::SemanticScoring, RouteUsageMode::Production).unwrap_err();
    assert_eq!(err.code, AppErrorCode::ModelNotProductionApproved);
    let err = router.resolve(ModelTaskKind::SemanticScoring, RouteUsageMode::ExplicitExperiment).unwrap_err();
    assert_eq!(err.code, AppErrorCode::ModelBindingUnavailable);
}

#[test]
fn router_runs_opted_in_experiments() {
    let (mut svc, _rt) = production_service("[::1]");
    svc.set_model_lifecycle("m", ModelLifecycleState::Experimental).unwrap();
    let mut input = bind("semantic_scoring", "m", "rt");
    input.allow_experimental_student_data = true;
    svc.bind_task(input).unwrap();
    let router = ModelRouterService::new(svc);
    let route = router.resolve(ModelTaskKind::SemanticScoring, RouteUsageMode::Production).unwrap();
    assert_eq!(route.usage_mode, RouteUsageMode::ExplicitExperiment);
}

#[test]
fn router_requires_a_current_manifest() {
    let mut svc = service();
    let rt = runtime("rt", "127.0.0.1");
    svc.upsert_runtime_definition(rt.clone()).unwrap();
    svc.import_model(import_input("m"), true, true, Ok("fm".to_string())).unwrap();
    svc.bind_task(bind("general_text", "m", "rt")).unwrap();
    let router = ModelRouterService::new(svc);
    let err = router.resolve(ModelTaskKind::GeneralText, RouteUsageMode::ExplicitExperiment).unwrap_err();
    assert_eq!(err.code, AppErrorCode::ModelCapabilityUnverified);
}

#[test]
fn loopback_hosts_are_recognized() {
    assert!(is_loopback_host(" LocalHost "));
    assert!(is_loopback_host("[::1]"));
    assert!(is_loopback_host("127.0.0.1"));
    assert!(!is_loopback_host("127.0.0.2"));
    assert!(!is_loopback_host("example.test"));
    assert!(!is_loopback_host(""));
}
