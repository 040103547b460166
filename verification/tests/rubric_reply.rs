use rubrika_models::errors::AppErrorCode;
use rubrika_models::json::{JsonEntry, JsonNumber, JsonValue};
use rubrika_models::rubric_reply::{
    normalize_rubric_criteria, parse_partial_rubric_questions, parse_rubric_model_response,
    parse_rubric_question_item, rubric_candidate, RubricImportPayload,
};
use rubrika_models::errors::AppError;

fn to_json(v: &serde_json::Value) -> JsonValue {
    match v {
        serde_json::Value::Null => JsonValue::Null,
        serde_json::Value::Bool(b) => JsonValue::Bool(*b),
        serde_json::Value::Number(n) => JsonValue::Num(JsonNumber {
            unsigned: n.as_u64(),
            signed: n.as_i64(),
            text: n.to_string(),
        }),
        serde_json::Value::String(s) => JsonValue::Str(s.clone()),
        serde_json::Value::Array(items) => JsonValue::Arr(items.iter().map(to_json).collect()),
        serde_json::Value::Object(map) => JsonValue::Obj(
            map.iter()
                .map(|(k, v)| JsonEntry { key: k.clone(), value: to_json(v) })
                .collect(),
        ),
    }
}

fn read_json(text: &str) -> Result<JsonValue, String> {
    serde_json::from_str::<serde_json::Value>(text)
        .map(|v| to_json(&v))
        .map_err(|e| e.to_string())
}

fn positive(n: &JsonNumber) -> bool {
    n.text.parse::<f64>().map(|f| f as f32 > 0.0).unwrap_or(false)
}

fn parse(raw: &str) -> Result<RubricImportPayload, AppError> {
    parse_rubric_model_response(raw, &read_json, &positive)
}

fn points(text: &Option<String>) -> Option<f32> {
    text.as_deref().map(|t| t.parse::<f32>().unwrap())
}

#[test]
fn test_parse_rubric_model_response_handles_plain_json() {
    let payload = parse(
        r#"{"questions":[{"questionNumber":1,"maxPoints":10,"expectedAnswer":"A","criteria":[{"label":"L","points":10,"description":"D"}],"warnings":[]}]}"#,
    )
    .expect("payload");
    assert_eq!(payload.questions.len(), 1);
    assert_eq!(payload.questions[0].question_number, 1);
    assert_eq!(points(&payload.questions[0].max_points), Some(10.0));
}

#[test]
fn test_parse_rubric_model_response_accepts_canonical_rubric_fields() {
    let payload = parse(
        r#"{"questions":[{"questionNumber":1,"maxScore":10,"expectedAnswer":"A","keyConcepts":["A"],"criteria":[{"label":"L","points":10,"description":"D"}],"partialCreditHints":["Kısmi"],"zeroScoreConditions":["Boş"],"commonMistakes":["Hata"],"warnings":[]}],"documentWarnings":[]}"#,
    )
    .expect("payload");
    let question = &payload.questions[0];
    assert_eq!(points(&question.max_points), Some(10.0));
    assert_eq!(question.key_concepts, vec!["A"]);
    assert_eq!(question.partial_credit_hints, vec!["Kısmi"]);
    assert_eq!(question.zero_score_conditions, vec!["Boş"]);
    assert_eq!(question.common_mistakes, vec!["Hata"]);
}

#[test]
fn test_parse_rubric_model_response_normalizes_aliases() {
    let payload = parse(
        r#"{"questions":[{"question_no":2,"maxPoint":12,"expected_answer":"B","scoring_criteria":[{"kriter":"Ölçüt","score":12,"aciklama":"D"}],"warnings":[]}]}"#,
    )
    .expect("payload");

    let question = &payload.questions[0];
    assert_eq!(question.question_number, 2);
    assert_eq!(points(&question.max_points), Some(12.0));
    assert_eq!(question.expected_answer.as_deref(), Some("B"));
    assert_eq!(question.criteria.len(), 1);
    assert_eq!(question.criteria[0].label, "Ölçüt");
    assert_eq!(points(&question.criteria[0].points).unwrap_or(0.0), 12.0);
    assert!(question.warnings.iter().any(|warning| warning == "questionNumber_alias:question_no"));
    assert!(question.warnings.iter().any(|warning| warning == "maxPoints_alias:maxPoint"));
    assert!(question.warnings.iter().any(|warning| warning == "expectedAnswer_alias:expected_answer"));
    assert!(question.warnings.iter().any(|warning| warning == "criteria_alias:scoring_criteria"));
}

#[test]
fn test_parse_rubric_model_response_marks_empty_payload() {
    let payload = parse(
        r#"{"questions":[{"questionNumber":1,"maxPoints":null,"expectedAnswer":"","criteria":[],"warnings":[]}]}"#,
    )
    .expect("payload");
    assert!(payload.questions[0].warnings.iter().any(|warning| warning == "rubric_empty_content"));
}

#[test]
fn test_parse_rubric_model_response_handles_fenced_and_explanatory_json() {
    let payload = parse(
        "Açıklama\n```json\n{\"questions\":[{\"soru_no\":6,\"max_score\":8,\"expected_answer\":\"B\",\"rubric\":[{\"name\":\"Nokta\",\"puan\":4,\"description\":\"D\"}],\"warnings\":[\"note\"]}]}\n```",
    )
    .expect("payload");
    assert_eq!(payload.questions[0].question_number, 6);
    assert!(payload.questions[0].warnings.iter().any(|warning| warning.contains("soru_no")));
    assert!(payload.questions[0].warnings.iter().any(|warning| warning.contains("max_score")));
}

#[test]
fn test_parse_rubric_model_response_invalid_json_errors() {
    let err = parse("```json\n{broken\n```").unwrap_err();
    assert_eq!(err.code, AppErrorCode::RubricJsonParseFailed);
}

#[test]
fn test_parse_rubric_model_response_recovers_complete_items_from_truncated_json() {
    let payload = parse(
        r#"{"questions":[{"number":1,"max_points":10,"expected_answer":"A","criteria":[{"label":"L","points":10,"description":"D"}],"warnings":[]},{"number":2,"max_points":5"#,
    )
    .expect("partial payload");

    assert_eq!(payload.questions.len(), 1);
    assert_eq!(payload.questions[0].question_number, 1);
    assert!(payload.questions[0].warnings.contains(&"partial_model_json_recovered".to_string()));
}

#[test]
fn alias_warnings_come_in_field_order() {
    let item = read_json(
        r#"{"soru_no":3,"question_no":3,"points":4,"answer":"x","kriterler":[{"name":"a","puan":1},{"kriter":"b"},7],"warnings":[" keep "]}"#,
    )
    .unwrap();
    let q = parse_rubric_question_item(&item, &["first"], &positive).unwrap();
    assert_eq!(
        q.warnings,
        vec![
            "first",
            "questionNumber_alias:question_no",
            "questionNumber_alias:soru_no",
            "maxPoints_alias:points",
            "expectedAnswer_alias:answer",
            "criteria_alias:kriterler",
            "criterion.label_alias:name",
            "criterion.points_alias:puan",
            "criterion.label_alias:kriter",
            " keep ",
        ]
    );
    assert_eq!(q.criteria.len(), 2);
    assert_eq!(q.criteria[1].label, "b");
    assert_eq!(q.criteria[1].points, None);
}

#[test]
fn question_item_errors_and_missing_criteria() {
    let err = parse_rubric_question_item(&read_json("[1]").unwrap(), &[], &positive).unwrap_err();
    assert_eq!(err.code, AppErrorCode::RubricSchemaValidationFailed);
    let err = parse_rubric_question_item(&read_json(r#"{"number":0}"#).unwrap(), &[], &positive).unwrap_err();
    assert_eq!(err.code, AppErrorCode::RubricSchemaValidationFailed);
    let q = parse_rubric_question_item(&read_json(r#"{"number":1,"maxPoints":-2}"#).unwrap(), &[], &positive).unwrap();
    assert_eq!(q.warnings, vec!["criteria_missing", "rubric_empty_content"]);
    let q = parse_rubric_question_item(&read_json(r#"{"number":1,"maxPoints":2.5}"#).unwrap(), &[], &positive).unwrap();
    assert_eq!(q.warnings, vec!["criteria_missing"]);
}

#[test]
fn criteria_that_are_not_a_list_warn() {
    let (criteria, warnings) = normalize_rubric_criteria(&read_json(r#"{"label":"x"}"#).unwrap());
    assert!(criteria.is_empty());
    assert_eq!(warnings, vec!["criteria_not_array"]);
}

#[test]
fn schema_errors_of_the_reply() {
    for raw in [r#"{"other":[]}"#, r#"{"questions":[]}"#, r#"[{"number":1},{"x":1}]"#, r#""s""#] {
        let err = parse(raw).unwrap_err();
        assert_eq!(err.code, AppErrorCode::RubricSchemaValidationFailed, "{raw}");
    }
}

#[test]
fn recovery_skips_strings_and_unreadable_objects() {
    let raw = r#"{"questions":[{"number":1,"note":"a } brace"},{"number":0},{"number":2}]"#;
    let payload = parse_partial_rubric_questions(raw, &read_json, &positive).unwrap();
    let numbers: Vec<u32> = payload.questions.iter().map(|q| q.question_number).collect();
    assert_eq!(numbers, vec![1, 2]);
    assert!(parse_partial_rubric_questions("no list here", &read_json, &positive).is_none());
}

#[test]
fn rubric_candidate_takes_the_first_balanced_value() {
    assert_eq!(rubric_candidate("  x {\"a\":[1]} y"), "{\"a\":[1]}");
}
