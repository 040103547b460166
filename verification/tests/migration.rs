use rubrika_models::config::ModelConfigService;
use rubrika_models::domain::{
    ModelCapabilities, ModelDefinition, ModelFormat, ModelProfile, TaskModelBinding, CapabilitySupport, ModelCapabilityKind, ModelLifecycleState, ModelMode, ModelRuntimePreset,
    ModelTaskKind, PrivacyMode, RuntimeDefinition,
};
use rubrika_models::fingerprint::fingerprint_runtime_definition;
use rubrika_models::migration::{
    append_canonical_bindings, build_platform_config_from_legacy, merge_gemma_model,
    LegacyProfileMigration, materialize_route_as_legacy_profile, runtime_base_url, seed_baseline_manifest,
    short_fingerprint, text_runtime_id, vision_runtime_id, ModelPlatformMigrationService,
};
use rubrika_models::platform::{default_platform_config, BindTaskInput, ImportModelInput, ModelPlatformService};
use rubrika_models::router::{ModelRouterService, RouteUsageMode};

fn runtime() -> RuntimeDefinition {
    RuntimeDefinition {
        id: "Llama Local".to_string(),
        managed: false,
        server_path: "/opt/llama-server".to_string(),
        host: "127.0.0.1".to_string(),
        port: 8090,
        privacy_mode: PrivacyMode::StrictLocal,
    }
}

#[test]
fn runtime_ids_and_base_urls() {
    assert_eq!(vision_runtime_id(), "llama-local-vision");
    assert_eq!(text_runtime_id(), "llama-local-text");
    assert_eq!(runtime_base_url(&runtime()), "http://127.0.0.1:8090");
}

#[test]
fn short_fingerprints_keep_twelve_bytes() {
    assert_eq!(short_fingerprint("0123456789abcdef"), "0123456789ab");
    assert_eq!(short_fingerprint("abc"), "abc");
    assert_eq!(short_fingerprint("ğğğğğğ1"), "ğğğğğğ");
    assert_eq!(short_fingerprint("ğğğğğ12ğ"), "ğğğğğ12");
    assert_eq!(short_fingerprint("ğğğğğ1ğ"), "ğğğğğ1ğ");
}

#[test]
fn a_route_becomes_an_ephemeral_profile() {
    let mut platform = ModelPlatformService::new_with_path("p".to_string(), None);
    let rt = runtime();
    platform.upsert_runtime_definition(rt.clone()).unwrap();
    let model = platform
        .import_model(
            ImportModelInput {
                id: "Gemma.4".to_string(),
                family: "gemma".to_string(),
                display_name: "Gemma 4".to_string(),
                model_path: "/m.gguf".to_string(),
                mmproj_path: None,
                quantization: None,
                context_limit: None,
                declared_text: true,
                declared_vision: false,
                declared_structured_json: true,
                declared_json_schema: false,
                declared_thinking_control: false,
            },
            true,
            true,
            Ok("00112233445566778899".to_string()),
        )
        .unwrap();
    platform
        .bind_task(BindTaskInput {
            task_profile_id: "general_text".to_string(),
            model_definition_id: model.id.clone(),
            runtime_definition_id: rt.id.clone(),
            allow_experimental_student_data: false,
        })
        .unwrap();
    let mut config = default_platform_config();
    config.models = platform.snapshot().models;
    config.runtimes = platform.snapshot().runtimes;
    config.bindings = platform.snapshot().bindings;
    let first = config.models[0].clone();
    seed_baseline_manifest(&mut config, &first, &rt, false);
    let manifest = &config.capability_manifests[0];
    assert_eq!(manifest.results.len(), 6);
    assert_eq!(manifest.results[1].capability, ModelCapabilityKind::Vision);
    assert_eq!(manifest.results[1].support, CapabilitySupport::Fail);
    assert_eq!(manifest.results[3].support, CapabilitySupport::Partial);
    assert_eq!(manifest.runtime_fingerprint, fingerprint_runtime_definition(&rt));
    platform.replace_config(config).unwrap();
    platform.set_model_lifecycle("gemma-4", ModelLifecycleState::Experimental).unwrap();

    let router = ModelRouterService::new(platform);
    let route = router.resolve(ModelTaskKind::GeneralText, RouteUsageMode::ExplicitExperiment).unwrap();
    let mut legacy = ModelConfigService::new_with_path("c".to_string(), None);
    let id = materialize_route_as_legacy_profile(&mut legacy, &route).unwrap();
    let runtime_fp = fingerprint_runtime_definition(&rt);
    assert_eq!(id, format!("platform-gemma-4-llama-local-001122334455-{}", &runtime_fp[..12]));
    let profile = legacy.get_model_profile(&id).unwrap();
    assert_eq!(profile.display_name, "Gemma 4 — Llama Local");
    assert_eq!(profile.mode, ModelMode::External);
    assert_eq!(profile.base_url, "http://127.0.0.1:8090");
    assert_eq!(profile.runtime_preset, ModelRuntimePreset::SpeakingRubricText);
    assert_eq!(profile.mmproj_path, "");
    assert_eq!(legacy.active_profile_id(), "gemma4-ocr-q8");

    let service = ModelPlatformMigrationService::new(
        ModelPlatformService::new_with_path("p".to_string(), None),
        legacy,
    );
    assert!(service.existing_registry_report().is_none());
}

const GEMMA_IDS: [&str; 3] = ["gemma4-ocr-q8", "speaking_transcript_cleanup_12b", "speaking_rubric_evaluation_12b"];

/// A stand-in for a legacy profile's own migration: a model and a runtime
/// named after the profile, and one binding.
fn migrate(p: &ModelProfile) -> LegacyProfileMigration {
    LegacyProfileMigration {
        model: ModelDefinition {
            id: format!("model-{}", p.id),
            family: "f".to_string(),
            display_name: p.display_name.clone(),
            model_path: p.model_path.clone(),
            mmproj_path: None,
            format: ModelFormat::Gguf,
            quantization: None,
            capabilities: ModelCapabilities {
                text: true,
                vision: false,
                structured_json: false,
                json_schema: true,
                thinking_control: false,
                multimodal_projector_required: false,
            },
            context_limit: None,
            metadata: vec![],
            model_fingerprint: "fp".to_string(),
            lifecycle_state: ModelLifecycleState::Imported,
        },
        runtime: RuntimeDefinition {
            id: format!("rt-{}", p.id),
            managed: p.mode == ModelMode::Managed,
            server_path: p.server_path.clone(),
            host: p.host.clone(),
            port: p.port,
            privacy_mode: p.privacy_mode,
        },
        bindings: vec![TaskModelBinding {
            id: format!("b-{}", p.id),
            task_profile_id: "general_text".to_string(),
            model_definition_id: String::new(),
            runtime_definition_id: String::new(),
            allow_experimental_student_data: false,
            enabled: true,
        }],
    }
}

fn keep(m: ModelDefinition) -> ModelDefinition {
    m
}

fn legacy_profiles() -> (ModelProfile, ModelProfile, ModelProfile) {
    let store = rubrika_models::config::default_store();
    let mut ocr = store.profiles[0].clone();
    ocr.mmproj_path = " /m/mmproj.gguf ".to_string();
    ocr.model_path = "".to_string();
    let mut cleanup = store.profiles[1].clone();
    cleanup.model_path = " /m/gemma.gguf ".to_string();
    let mut custom = store.profiles[0].clone();
    custom.id = "Custom Profile".to_string();
    (ocr, cleanup, custom)
}

#[test]
fn legacy_gemma_profiles_merge_into_the_canonical_model() {
    let (ocr, cleanup, _) = legacy_profiles();
    let m = merge_gemma_model(&vec![cleanup, ocr], "gemma4-ocr-q8", "gemma-4-12b", &migrate, &keep);
    assert_eq!(m.id, "gemma-4-12b");
    assert_eq!(m.display_name, "Gemma 4 12B");
    assert_eq!(m.family, "gemma");
    assert_eq!(m.lifecycle_state, ModelLifecycleState::Production);
    assert!(m.capabilities.vision && m.capabilities.multimodal_projector_required);
    assert!(m.capabilities.text && m.capabilities.structured_json && m.capabilities.thinking_control);
    assert!(m.capabilities.json_schema);
    assert_eq!(m.model_path, "/m/gemma.gguf");
    assert_eq!(m.mmproj_path.as_deref(), Some("/m/mmproj.gguf"));
    let pairs: Vec<(&str, &str)> = m.metadata.iter().map(|e| (e.key.as_str(), e.value.as_str())).collect();
    assert_eq!(
        pairs,
        vec![
            ("baselineVerified", "true"),
            ("legacyAliases", "speaking_transcript_cleanup_12b,gemma4-ocr-q8"),
            ("migrationSource", "legacy_model_profiles"),
        ]
    );
}

#[test]
fn canonical_bindings_need_the_migrated_runtime() {
    let mut config = default_platform_config();
    append_canonical_bindings(&mut config, "speaking_rubric_evaluation_12b", "gemma-4-12b");
    assert!(config.bindings.is_empty());
    let mut rt = runtime();
    rt.id = "llama-local-text".to_string();
    config.runtimes.push(rt);
    append_canonical_bindings(&mut config, "speaking_rubric_evaluation_12b", "gemma-4-12b");
    append_canonical_bindings(&mut config, "speaking_rubric_evaluation_12b", "gemma-4-12b");
    assert_eq!(config.bindings.len(), 1);
    assert_eq!(config.bindings[0].id, "binding-speaking_evaluation-gemma-4-12b");
    assert_eq!(config.bindings[0].runtime_definition_id, "llama-local-text");
    assert!(config.bindings[0].enabled);
}

#[test]
fn legacy_profiles_build_the_registry() {
    let (ocr, cleanup, custom) = legacy_profiles();
    let config = build_platform_config_from_legacy(
        &vec![ocr, cleanup, custom],
        &GEMMA_IDS,
        "gemma-4-12b",
        &migrate,
        &keep,
    )
    .unwrap();
    let runtime_ids: Vec<&str> = config.runtimes.iter().map(|r| r.id.as_str()).collect();
    assert_eq!(runtime_ids, vec!["llama-local-vision", "llama-local-text", "legacy-runtime-custom-profile"]);
    let model_ids: Vec<&str> = config.models.iter().map(|m| m.id.as_str()).collect();
    assert_eq!(model_ids, vec!["gemma-4-12b", "model-Custom Profile"]);
    assert_eq!(config.models[1].lifecycle_state, ModelLifecycleState::Production);
    assert_eq!(config.capability_manifests.len(), 3);
    assert_eq!(config.bindings.len(), 9);
    assert!(config.bindings.iter().any(|b| b.id == "binding-student_answer_ocr-gemma-4-12b"
        && b.runtime_definition_id == "llama-local-vision"));
    assert!(config.bindings.iter().any(|b| b.id == "binding-speaking_transcript_cleanup-gemma-4-12b"
        && b.runtime_definition_id == "llama-local-text"));
    assert!(config.bindings.iter().any(|b| b.id == "b-Custom Profile"
        && b.model_definition_id == "model-Custom Profile"
        && b.runtime_definition_id == "legacy-runtime-custom-profile"));
    let err = build_platform_config_from_legacy(&vec![], &GEMMA_IDS, "gemma-4-12b", &migrate, &keep).unwrap_err();
    assert_eq!(err.code, rubrika_models::errors::AppErrorCode::ModelConfigMigrationFailed);
}

#[test]
fn bootstrap_migrates_only_an_empty_registry() {
    let platform = ModelPlatformService::new_with_path("p".to_string(), None);
    let legacy = ModelConfigService::new_with_path("c".to_string(), None);
    let mut service = ModelPlatformMigrationService::new(platform, legacy);
    let profiles = service.collect_legacy_profiles(&GEMMA_IDS);
    let ids: Vec<&str> = profiles.iter().map(|p| p.id.as_str()).collect();
    assert_eq!(ids, GEMMA_IDS.to_vec());
    let report = service
        .bootstrap_from_legacy(Some("b.json".to_string()), &GEMMA_IDS, "gemma-4-12b", &migrate, &keep)
        .unwrap();
    assert!(report.migrated);
    assert_eq!(report.legacy_backup_path.as_deref(), Some("b.json"));
    assert_eq!(report.model_count, 1);
    assert_eq!(report.runtime_count, 2);
    assert_eq!(report.binding_count, 9);
    let again = service
        .bootstrap_from_legacy(None, &GEMMA_IDS, "gemma-4-12b", &migrate, &keep)
        .unwrap();
    assert!(!again.migrated);
    assert_eq!(again.model_count, 1);
}
