use rubrika_models::config::{speaking_asr_cleanup_model_profile, speaking_rubric_model_profile};
use rubrika_models::domain::{ModelLifecycleState, ModelRuntimePreset};
use rubrika_models::json::{json_get_any, JsonEntry, JsonNumber, JsonValue};
use rubrika_models::model_step::serving;
use rubrika_models::router::lifecycle_state_name;
use rubrika_models::runtime::{selection_changes, ModelStatus, PlatformRuntimeSelection};
use rubrika_models::text::{
    decimal_string, lower_str, normalize_id, sanitize_id, signed_decimal_string, sort_dedup,
    text_less,
};

#[test]
fn ids_are_normalized_with_collapsed_separators() {
    assert_eq!(normalize_id("  Gemma 4 / Q8  "), "gemma-4-q8");
    assert_eq!(normalize_id("a  b"), "a-b");
    assert_eq!(normalize_id("a--b"), "a--b");
    assert_eq!(normalize_id("__X__"), "__x__");
    assert_eq!(normalize_id("  !!  "), "");
}

#[test]
fn ids_are_sanitized_character_by_character() {
    assert_eq!(sanitize_id("Gemma 4/Q8"), "gemma-4-q8");
    assert_eq!(sanitize_id("a  b"), "a--b");
    assert_eq!(sanitize_id("-x-"), "x");
    assert_eq!(sanitize_id("Ölçüt"), "l--t");
}

#[test]
fn lifecycle_names_and_student_data_permissions() {
    assert_eq!(lifecycle_state_name(ModelLifecycleState::Production), "Production");
    assert_eq!(lifecycle_state_name(ModelLifecycleState::BenchmarkVerified), "BenchmarkVerified");
    assert!(ModelLifecycleState::Production.may_receive_production_student_data());
    assert!(!ModelLifecycleState::BenchmarkVerified.may_receive_production_student_data());
    assert!(ModelLifecycleState::Experimental.may_receive_explicit_experiment_student_data());
    assert!(!ModelLifecycleState::Compatible.may_receive_explicit_experiment_student_data());
}

#[test]
fn decimal_renderings() {
    assert_eq!(decimal_string(0), "0");
    assert_eq!(decimal_string(1234), "1234");
    assert_eq!(decimal_string(u64::MAX), u64::MAX.to_string());
    assert_eq!(signed_decimal_string(-5), "-5");
    assert_eq!(signed_decimal_string(i64::MIN), i64::MIN.to_string());
}

#[test]
fn ascii_lower_case_only() {
    assert_eq!(lower_str("AbC-Ç"), "abc-Ç");
}

#[test]
fn codes_sort_and_dedup_in_string_order() {
    let v = vec!["b".to_string(), "a".to_string(), "b".to_string(), "Z".to_string(), "ab".to_string()];
    assert_eq!(sort_dedup(v), vec!["Z", "a", "ab", "b"]);
    assert!(text_less("a", "ab"));
    assert!(!text_less("b", "ab"));
    assert!(text_less("z", "ç"));
}

#[test]
fn speaking_profiles_use_their_own_ports() {
    let cleanup = speaking_asr_cleanup_model_profile();
    let rubric = speaking_rubric_model_profile();
    assert_eq!(cleanup.id, "speaking_transcript_cleanup_12b");
    assert_eq!(cleanup.port, 8081);
    assert_eq!(rubric.id, "speaking_rubric_evaluation_12b");
    assert_eq!(rubric.base_url, "http://127.0.0.1:8082");
    assert_eq!(rubric.runtime_preset, ModelRuntimePreset::SpeakingRubricText);
}

#[test]
fn a_selection_changes_only_when_something_differs() {
    let sel = |p: &str, m: &str, r: &str| PlatformRuntimeSelection {
        profile_id: p.to_string(),
        model_fingerprint: m.to_string(),
        runtime_fingerprint: r.to_string(),
    };
    assert!(!selection_changes(&None, &sel("p", "m", "r")));
    assert!(!selection_changes(&Some(sel("p", "m", "r")), &sel("p", "m", "r")));
    assert!(selection_changes(&Some(sel("p", "m", "r")), &sel("p", "m2", "r")));
}

#[test]
fn a_server_serves_when_running_and_healthy() {
    let mut s = ModelStatus::default();
    assert!(!serving(&s));
    s.server_running = true;
    assert!(!serving(&s));
    s.health_ok = true;
    assert!(serving(&s));
}

#[test]
fn the_first_present_spelling_wins() {
    let v = JsonValue::Obj(vec![
        JsonEntry { key: "b".to_string(), value: JsonValue::Str("second".to_string()) },
        JsonEntry {
            key: "a".to_string(),
            value: JsonValue::Num(JsonNumber { unsigned: Some(1), signed: Some(1), text: "1".to_string() }),
        },
    ]);
    assert!(matches!(json_get_any(&v, &["a", "b"]), Some(JsonValue::Num(_))));
    assert!(matches!(json_get_any(&v, &["c", "b"]), Some(JsonValue::Str(_))));
    assert!(json_get_any(&v, &["c"]).is_none());
    assert!(json_get_any(&JsonValue::Null, &["a"]).is_none());
}
