use rubrika_models::capability_probe::{
    braces_misordered_text, capability_results, failed_result, finish_probe, json_schema_result,
    parse_json_content, plan_probes, probe_manifest, probe_targets, skipped_result,
    structured_json_result, text_probe_result, vision_result,
};
use rubrika_models::json::{JsonEntry, JsonNumber, JsonValue};
use rubrika_models::domain::{
    CapabilityProbeResult, CapabilitySupport, ModelCapabilityKind, ModelDefinition,
    ModelLifecycleState, PrivacyMode, RuntimeDefinition,
};
use rubrika_models::errors::{AppError, AppErrorCode};
use rubrika_models::platform::{ImportModelInput, ModelPlatformService};

fn platform(vision: bool) -> ModelPlatformService {
    let mut svc = ModelPlatformService::new_with_path("/tmp/rubrika-probe.json".to_string(), None);
    svc.upsert_runtime_definition(RuntimeDefinition {
        id: "rt".to_string(),
        managed: true,
        server_path: "/opt/llama-server".to_string(),
        host: "127.0.0.1".to_string(),
        port: 8080,
        privacy_mode: PrivacyMode::StrictLocal,
    })
    .unwrap();
    svc.import_model(
        ImportModelInput {
            id: "m".to_string(),
            family: "gemma".to_string(),
            display_name: "Gemma".to_string(),
            model_path: "/models/m.gguf".to_string(),
            mmproj_path: if vision { Some("/models/mmproj.gguf".to_string()) } else { None },
            quantization: None,
            context_limit: None,
            declared_text: true,
            declared_vision: vision,
            declared_structured_json: true,
            declared_json_schema: false,
            declared_thinking_control: true,
        },
        true,
        true,
        Ok("fm".to_string()),
    )
    .unwrap();
    svc
}

fn error(message: &str) -> AppError {
    AppError {
        code: AppErrorCode::ModelHealthFailed,
        message: message.to_string(),
        recoverable: true,
        suggested_action: None,
        technical_details: None,
        correlation_id: "c".to_string(),
    }
}

fn pass(kind: ModelCapabilityKind) -> CapabilityProbeResult {
    CapabilityProbeResult { capability: kind, support: CapabilitySupport::Pass, detail: None, duration_ms: Some(1) }
}

fn targets(svc: &ModelPlatformService) -> (ModelDefinition, RuntimeDefinition) {
    probe_targets(svc, "m", "rt").expect("targets")
}

#[test]
fn probe_targets_must_be_registered() {
    let svc = platform(false);
    let (model, runtime) = targets(&svc);
    assert_eq!(model.id, "m");
    assert_eq!(runtime.id, "rt");
    assert_eq!(probe_targets(&svc, "x", "rt").unwrap_err().code, AppErrorCode::ModelProfileNotFound);
    assert_eq!(probe_targets(&svc, "m", "x").unwrap_err().code, AppErrorCode::ModelProfileNotFound);
}

#[test]
fn text_probe_passes_only_on_the_probe_token() {
    let ok = text_probe_result(Ok("sure: RUBRIKA_PROBE_OK".to_string()), 12);
    assert_eq!(ok.support, CapabilitySupport::Pass);
    assert_eq!(ok.duration_ms, Some(12));
    let partial = text_probe_result(Ok("RUBRIKA_PROBE".to_string()), 3);
    assert_eq!(partial.support, CapabilitySupport::Partial);
    let failed = text_probe_result(Err(error("down")), 4);
    assert_eq!(failed.support, CapabilitySupport::Fail);
    assert_eq!(failed.detail.as_deref(), Some("down"));
}

#[test]
fn json_and_vision_probes_follow_the_plan() {
    let svc = platform(true);
    let (model, _) = targets(&svc);
    let plan = plan_probes(CapabilitySupport::Pass, &model);
    assert!(plan.json_probes && plan.vision_probe);
    let plan = plan_probes(CapabilitySupport::Partial, &model);
    assert!(!plan.json_probes);
}

#[test]
fn results_of_a_vision_model_include_the_projector() {
    let svc = platform(true);
    let (model, _) = targets(&svc);
    let results = capability_results(
        &model,
        pass(ModelCapabilityKind::Text),
        Some((pass(ModelCapabilityKind::StructuredJson), pass(ModelCapabilityKind::JsonSchema))),
        Some(pass(ModelCapabilityKind::Vision)),
        true,
    );
    let kinds: Vec<ModelCapabilityKind> = results.iter().map(|r| r.capability).collect();
    assert_eq!(
        kinds,
        vec![
            ModelCapabilityKind::Text,
            ModelCapabilityKind::StructuredJson,
            ModelCapabilityKind::JsonSchema,
            ModelCapabilityKind::Vision,
            ModelCapabilityKind::MultimodalProjector,
            ModelCapabilityKind::ThinkingControl,
        ]
    );
    assert_eq!(results[4].support, CapabilitySupport::Pass);
    assert_eq!(results[5].support, CapabilitySupport::Pass);
}

#[test]
fn results_of_a_text_model_after_a_failed_text_probe() {
    let svc = platform(false);
    let (model, _) = targets(&svc);
    let text = failed_result(ModelCapabilityKind::Text, error("timeout"), 9);
    let results = capability_results(&model, text, None, None, false);
    assert_eq!(results.len(), 5);
    assert_eq!(results[1].support, CapabilitySupport::Unverified);
    assert_eq!(results[2].capability, ModelCapabilityKind::JsonSchema);
    assert_eq!(results[3].capability, ModelCapabilityKind::Vision);
    assert_eq!(results[3].support, CapabilitySupport::Fail);
    assert_eq!(results[4].support, CapabilitySupport::Partial);
    let skipped = skipped_result(ModelCapabilityKind::Vision, "why");
    assert_eq!(skipped.detail.as_deref(), Some("why"));
}

#[test]
fn a_clean_probe_makes_the_model_compatible() {
    let mut svc = platform(false);
    let (model, runtime) = targets(&svc);
    svc.mark_probe_started("m").unwrap();
    let results = vec![pass(ModelCapabilityKind::Text)];
    let manifest = probe_manifest(&model, &runtime, results, "2024-01-01T00:00:00Z".to_string());
    let recorded = finish_probe(&mut svc, "m", Ok(manifest)).expect("recorded");
    assert_eq!(recorded.model_definition_id, "m");
    let snapshot = svc.snapshot();
    assert_eq!(snapshot.capability_manifests.len(), 1);
    assert_eq!(snapshot.models[0].lifecycle_state, ModelLifecycleState::Compatible);
}

#[test]
fn a_failed_capability_makes_the_model_unsupported() {
    let mut svc = platform(false);
    let (model, runtime) = targets(&svc);
    let results = vec![pass(ModelCapabilityKind::Text), failed_result(ModelCapabilityKind::Vision, error("no"), 1)];
    let manifest = probe_manifest(&model, &runtime, results, "t".to_string());
    finish_probe(&mut svc, "m", Ok(manifest)).expect("recorded");
    assert_eq!(svc.snapshot().models[0].lifecycle_state, ModelLifecycleState::Unsupported);
}

#[test]
fn a_failed_probe_marks_the_model_and_returns_the_error() {
    let mut svc = platform(false);
    let e = finish_probe(&mut svc, "m", Err(error("server down"))).unwrap_err();
    assert_eq!(e.message, "server down");
    assert_eq!(svc.snapshot().models[0].lifecycle_state, ModelLifecycleState::ProbeFailed);
    assert!(svc.snapshot().capability_manifests.is_empty());
}

#[test]
fn a_stale_manifest_is_refused() {
    let mut svc = platform(false);
    let (model, runtime) = targets(&svc);
    let mut manifest = probe_manifest(&model, &runtime, vec![], "t".to_string());
    manifest.model_fingerprint = "other".to_string();
    let e = finish_probe(&mut svc, "m", Ok(manifest)).unwrap_err();
    assert_eq!(e.code, AppErrorCode::ModelConfigMissing);
    assert_eq!(svc.snapshot().models[0].lifecycle_state, ModelLifecycleState::Imported);
}

fn to_json(v: &serde_json::Value) -> JsonValue {
    match v {
        serde_json::Value::Null => JsonValue::Null,
        serde_json::Value::Bool(b) => JsonValue::Bool(*b),
        serde_json::Value::Number(n) => JsonValue::Num(JsonNumber {
            unsigned: n.as_u64(),
            signed: n.as_i64(),
            text: n.to_string(),
        }),
        serde_json::Value::String(s) => JsonValue::Str(s.clone()),
        serde_json::Value::Array(items) => JsonValue::Arr(items.iter().map(to_json).collect()),
        serde_json::Value::Object(map) => JsonValue::Obj(
            map.iter()
                .map(|(k, v)| JsonEntry { key: k.clone(), value: to_json(v) })
                .collect(),
        ),
    }
}

fn read_json(text: &str) -> Result<JsonValue, String> {
    serde_json::from_str::<serde_json::Value>(text)
        .map(|v| to_json(&v))
        .map_err(|e| e.to_string())
}

fn reply(text: &str) -> Result<Option<JsonValue>, AppError> {
    Ok(parse_json_content(text, &read_json))
}

#[test]
fn reply_json_falls_back_to_the_brace_span() {
    assert!(parse_json_content("  {\"ok\":true} ", &read_json).is_some());
    assert!(parse_json_content("Sure: {\"ok\":true} done", &read_json).is_some());
    assert!(parse_json_content("no json", &read_json).is_none());
    assert!(parse_json_content("}{", &read_json).is_none());
    assert!(braces_misordered_text("} x {"));
    assert!(!braces_misordered_text("}{"));
    assert!(!braces_misordered_text("{}"));
}

#[test]
fn structured_json_probe_needs_ok_and_seven() {
    let r = structured_json_result(reply("{\"ok\":true,\"value\":7}"), 5);
    assert_eq!(r.support, CapabilitySupport::Pass);
    assert_eq!(r.duration_ms, Some(5));
    assert_eq!(structured_json_result(reply("{\"ok\":true,\"value\":8}"), 5).support, CapabilitySupport::Partial);
    assert_eq!(structured_json_result(reply("nothing"), 5).support, CapabilitySupport::Fail);
}

#[test]
fn json_schema_probe_needs_label_and_tolerates_refusal() {
    let r = json_schema_result(reply("{\"ok\":true,\"label\":\"rubrika\"}"), 3);
    assert_eq!(r.support, CapabilitySupport::Pass);
    assert_eq!(json_schema_result(reply("{\"ok\":false,\"label\":\"rubrika\"}"), 3).support, CapabilitySupport::Partial);
    let refused = json_schema_result(
        Err(rubrika_models::errors::app_error(AppErrorCode::ModelHealthFailed, "refused", None, None)),
        3,
    );
    assert_eq!(refused.support, CapabilitySupport::Partial);
    assert_eq!(refused.detail.as_deref(), Some("runtime json_schema probe rejected or unsupported"));
}

#[test]
fn vision_probe_passes_only_on_vision_true() {
    assert_eq!(vision_result(reply("{\"vision\":true}"), 1).support, CapabilitySupport::Pass);
    assert_eq!(vision_result(reply("{\"vision\":\"yes\"}"), 1).support, CapabilitySupport::Partial);
    assert_eq!(vision_result(reply("x"), 1).support, CapabilitySupport::Partial);
}
