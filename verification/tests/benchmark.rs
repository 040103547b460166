use rubrika_models::benchmark::{check_golden_reports, gate_state, golden_benchmark_notes, lifecycle_after, plan_benchmark_metrics, record_benchmark, GoldenReportFacts, ModelBenchmarkService};
use rubrika_models::domain::{BenchmarkGateState, ModelLifecycleState, PrivacyMode, RuntimeDefinition};
use rubrika_models::errors::AppErrorCode;
use rubrika_models::fingerprint::fingerprint_runtime_definition;
use rubrika_models::platform::{ImportModelInput, ModelPlatformService};

fn platform_with(lifecycle: ModelLifecycleState) -> ModelPlatformService {
    let mut svc = ModelPlatformService::new_with_path("/tmp/rubrika-bench.json".to_string(), None);
    svc.upsert_runtime_definition(RuntimeDefinition {
        id: "rt".to_string(),
        managed: true,
        server_path: "/opt/llama-server".to_string(),
        host: "127.0.0.1".to_string(),
        port: 8080,
        privacy_mode: PrivacyMode::StrictLocal,
    })
    .unwrap();
    svc.import_model(
        ImportModelInput {
            id: "m".to_string(),
            family: "gemma".to_string(),
            display_name: "Gemma".to_string(),
            model_path: "/models/m.gguf".to_string(),
            mmproj_path: None,
            quantization: None,
            context_limit: None,
            declared_text: true,
            declared_vision: false,
            declared_structured_json: true,
            declared_json_schema: false,
            declared_thinking_control: false,
        },
        true,
        true,
        Ok("fm".to_string()),
    )
    .unwrap();
    if lifecycle != ModelLifecycleState::Imported {
        svc.set_model_lifecycle("m", lifecycle).unwrap();
    }
    svc
}

fn lifecycle_of(svc: &ModelPlatformService) -> ModelLifecycleState {
    svc.snapshot().models[0].lifecycle_state
}

#[test]
fn untrusted_observations_are_diagnostic_only() {
    let mut svc = platform_with(ModelLifecycleState::Experimental);
    let result = record_benchmark(&mut svc, "semantic_scoring", "m", "rt", true, false).unwrap();
    assert_eq!(result.state, BenchmarkGateState::Fail);
    assert!(result.id.starts_with("diagnostic-benchmark-semantic_scoring-m-"));
    assert_eq!(lifecycle_of(&svc), ModelLifecycleState::Experimental);
    assert_eq!(svc.snapshot().benchmark_results.len(), 1);
}

#[test]
fn trusted_passing_benchmark_verifies_the_model() {
    let mut svc = platform_with(ModelLifecycleState::Experimental);
    let result = record_benchmark(&mut svc, "semantic_scoring", "m", "rt", true, true).unwrap();
    assert_eq!(result.state, BenchmarkGateState::Pass);
    assert!(result.id.starts_with("verified-benchmark-semantic_scoring-m-"));
    assert_eq!(result.model_fingerprint, "fm");
    let rt = svc.snapshot().runtimes[0].clone();
    assert_eq!(result.runtime_fingerprint, fingerprint_runtime_definition(&rt));
    assert_eq!(lifecycle_of(&svc), ModelLifecycleState::BenchmarkVerified);
}

#[test]
fn trusted_failing_benchmark_marks_the_model_failed() {
    let mut svc = platform_with(ModelLifecycleState::Experimental);
    let result = record_benchmark(&mut svc, "semantic_scoring", "m", "rt", false, true).unwrap();
    assert_eq!(result.state, BenchmarkGateState::Fail);
    assert_eq!(lifecycle_of(&svc), ModelLifecycleState::BenchmarkFailed);
}

#[test]
fn imported_model_is_not_verified_by_a_pass() {
    let mut svc = platform_with(ModelLifecycleState::Imported);
    record_benchmark(&mut svc, "semantic_scoring", "m", "rt", true, true).unwrap();
    assert_eq!(lifecycle_of(&svc), ModelLifecycleState::Imported);
}

#[test]
fn a_new_result_replaces_the_previous_one() {
    let mut svc = platform_with(ModelLifecycleState::Experimental);
    record_benchmark(&mut svc, "semantic_scoring", "m", "rt", true, false).unwrap();
    let second = record_benchmark(&mut svc, "semantic_scoring", "m", "rt", false, false).unwrap();
    let results = svc.snapshot().benchmark_results;
    assert_eq!(results.len(), 1);
    assert_eq!(results[0].id, second.id);
    record_benchmark(&mut svc, "analysis", "m", "rt", true, false).unwrap();
    assert_eq!(svc.snapshot().benchmark_results.len(), 2);
}

#[test]
fn unknown_registry_entries_are_refused() {
    let mut svc = platform_with(ModelLifecycleState::Experimental);
    for (task, model, runtime) in [("nope", "m", "rt"), ("semantic_scoring", "nope", "rt"), ("semantic_scoring", "m", "nope")] {
        let error = record_benchmark(&mut svc, task, model, runtime, true, true).unwrap_err();
        assert_eq!(error.code, AppErrorCode::ModelRegistryEntryNotFound);
    }
    assert!(svc.snapshot().benchmark_results.is_empty());
}

#[test]
fn gate_and_lifecycle_rules() {
    assert_eq!(gate_state(true, true), BenchmarkGateState::Pass);
    assert_eq!(gate_state(false, true), BenchmarkGateState::Fail);
    assert_eq!(gate_state(true, false), BenchmarkGateState::Fail);
    assert_eq!(
        lifecycle_after(true, true, ModelLifecycleState::Compatible),
        Some(ModelLifecycleState::BenchmarkVerified)
    );
    assert_eq!(lifecycle_after(true, false, ModelLifecycleState::Production), None);
    assert_eq!(lifecycle_after(false, false, ModelLifecycleState::Experimental), None);
    assert_eq!(
        lifecycle_after(true, false, ModelLifecycleState::Compatible),
        Some(ModelLifecycleState::BenchmarkFailed)
    );
}

#[test]
fn the_service_records_in_its_registry() {
    let mut service = ModelBenchmarkService::new(platform_with(ModelLifecycleState::Compatible));
    let result = service.record_outcome("semantic_scoring", "m", "rt", true, true).unwrap();
    assert_eq!(result.state, BenchmarkGateState::Pass);
    assert_eq!(service.platform().snapshot().benchmark_results.len(), 1);
    let platform = service.into_platform();
    assert_eq!(lifecycle_of(&platform), ModelLifecycleState::BenchmarkVerified);
}

#[test]
fn benchmark_metrics_are_matched_against_the_task_policy() {
    let keys: Vec<String> = ["cer", "extra", "wer", "cer"].iter().map(|k| k.to_string()).collect();
    let plan = plan_benchmark_metrics("student_answer_ocr", &keys, vec!["n".to_string()], false);
    let policy: Vec<(&str, Option<usize>)> = plan.policy.iter().map(|(k, s)| (k.as_str(), *s)).collect();
    assert_eq!(
        policy,
        vec![
            ("critical_token_missing", None),
            ("printed_question_leakage", None),
            ("schema_failure_rate", None),
            ("cer", Some(3)),
            ("wer", Some(2)),
        ]
    );
    assert_eq!(plan.extras, vec![1]);
    assert_eq!(
        plan.notes,
        vec![
            "n".to_string(),
            "required benchmark metric missing: critical_token_missing".to_string(),
            "required benchmark metric missing: printed_question_leakage".to_string(),
            "required benchmark metric missing: schema_failure_rate".to_string(),
            "diagnostic_only: manual/untrusted benchmark observations cannot satisfy Production promotion".to_string(),
        ]
    );
    let plan = plan_benchmark_metrics("general_text", &vec!["schema_failure_rate".to_string()], vec![], true);
    assert_eq!(plan.policy, vec![("schema_failure_rate".to_string(), Some(0))]);
    assert!(plan.extras.is_empty());
    assert!(plan.notes.is_empty());
}

fn golden(available: bool, exam: &str, manifest: Option<&str>) -> GoldenReportFacts {
    GoldenReportFacts {
        runtime_available: available,
        runtime_label: if available { "Available".to_string() } else { "Preview".to_string() },
        exam_id: exam.to_string(),
        corpus_manifest_sha256: manifest.map(str::to_string),
    }
}

#[test]
fn golden_reports_must_be_measured_on_the_same_exam_and_manifest() {
    assert!(check_golden_reports(&golden(true, "e1", Some("m")), &golden(true, "e1", Some("m"))).is_ok());
    let preview = check_golden_reports(&golden(false, "e1", None), &golden(true, "e1", None)).unwrap_err();
    assert_eq!(preview.code, AppErrorCode::ModelBenchmarkFailed);
    assert_eq!(preview.technical_details.as_deref(), Some("report=candidate; model_runtime=Preview"));
    let exam = check_golden_reports(&golden(true, "e1", None), &golden(true, "e2", None)).unwrap_err();
    assert_eq!(exam.message, "Candidate ve baseline golden corpus kimliği eşleşmiyor.");
    let manifest = check_golden_reports(&golden(true, "e1", Some("a")), &golden(true, "e1", None)).unwrap_err();
    assert_eq!(manifest.message, "Candidate ve baseline farklı golden manifest üzerinde çalıştırılmış.");
    assert_eq!(
        golden_benchmark_notes("e1", "c.json", "b.json", &None),
        vec!["golden_exam_id=e1", "candidate_report=c.json", "baseline_report=b.json", "corpus_manifest_sha256="]
    );
}
