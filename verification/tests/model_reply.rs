use rubrika_models::errors::AppErrorCode;
use rubrika_models::json::{JsonEntry, JsonNumber, JsonValue};
use rubrika_models::model_reply::{
    check_http_status, check_reply_content, identity_from_json, identity_parse_failed, json_candidate, parse_question_text_output,
    parse_student_identity_ocr_output, question_text_from_json,
};

fn to_json(v: &serde_json::Value) -> JsonValue {
    match v {
        serde_json::Value::Null => JsonValue::Null,
        serde_json::Value::Bool(b) => JsonValue::Bool(*b),
        serde_json::Value::Number(n) => JsonValue::Num(JsonNumber {
            unsigned: n.as_u64(),
            signed: n.as_i64(),
            text: n.to_string(),
        }),
        serde_json::Value::String(s) => JsonValue::Str(s.clone()),
        serde_json::Value::Array(items) => JsonValue::Arr(items.iter().map(to_json).collect()),
        serde_json::Value::Object(map) => JsonValue::Obj(
            map.iter()
                .map(|(k, v)| JsonEntry { key: k.clone(), value: to_json(v) })
                .collect(),
        ),
    }
}

fn read_json(text: &str) -> Result<JsonValue, String> {
    serde_json::from_str::<serde_json::Value>(text)
        .map(|v| to_json(&v))
        .map_err(|e| e.to_string())
}

#[test]
fn test_parse_question_text_output_requires_schema() {
    let err = parse_question_text_output(r#"{"page_warnings":[]}"#, read_json).unwrap_err();
    assert_eq!(err.code, AppErrorCode::ModelResponseInvalidSchema);
}

#[test]
fn test_parse_question_text_output_handles_valid_payload() {
    let output = parse_question_text_output(
        r#"{"questions":[{"number":1,"question_text":"Question 1","confidence":0.8,"warnings":["low_confidence"]}],"page_warnings":["page_1"]}"#,
        read_json,
    )
    .expect("output");
    assert_eq!(output.questions.len(), 1);
    assert_eq!(output.questions[0].number, 1);
    assert_eq!(output.page_warnings, vec!["page_1".to_string()]);
}

#[test]
fn test_parse_question_text_output_handles_fenced_alias_payload() {
    let output = parse_question_text_output(
        "Açıklama\n```json\n[{\"soru_no\":6,\"questionText\":\"S6. Son soru\",\"confidence\":0.9,\"warnings\":[]}]\n```",
        read_json,
    )
    .expect("output");

    assert_eq!(output.questions.len(), 1);
    assert_eq!(output.questions[0].number, 6);
    assert_eq!(output.questions[0].question_text, "S6. Son soru");
}

#[test]
fn question_text_keeps_confidence_text_and_item_warnings() {
    let output = parse_question_text_output(
        r#"{"questions":[{"number":2,"text":"İkinci","confidence":0.75,"warnings":["a"," b ",3]}]}"#,
        read_json,
    )
    .expect("output");
    let q = &output.questions[0];
    assert_eq!(q.confidence.as_deref(), Some("0.75"));
    assert_eq!(q.warnings, vec!["a".to_string(), " b ".to_string()]);
    assert!(output.page_warnings.is_empty());
}

#[test]
fn question_text_rejects_invalid_json() {
    let err = parse_question_text_output("not json at all", read_json).unwrap_err();
    assert_eq!(err.code, AppErrorCode::ModelResponseInvalidJson);
}

#[test]
fn question_text_rejects_zero_number_blank_text_and_empty_lists() {
    for text in [
        r#"{"questions":[{"number":0,"question_text":"x"}]}"#,
        r#"{"questions":[{"number":1,"question_text":"   "}]}"#,
        r#"{"questions":[{"number":1}]}"#,
        r#"{"questions":[]}"#,
        r#"{"questions":{"number":1}}"#,
        r#"[1]"#,
        r#""text""#,
    ] {
        let value = read_json(text).unwrap();
        let err = question_text_from_json(&value).unwrap_err();
        assert_eq!(err.code, AppErrorCode::ModelResponseInvalidSchema, "{text}");
    }
}

#[test]
fn question_number_is_taken_modulo_two_to_the_thirty_two() {
    let value = read_json(r#"[{"number":4294967297,"question_text":"q"}]"#).unwrap();
    assert_eq!(question_text_from_json(&value).unwrap().questions[0].number, 1);
    let value = read_json(r#"[{"number":4294967296,"question_text":"q"}]"#).unwrap();
    assert!(question_text_from_json(&value).is_err());
}

#[test]
fn json_candidate_drops_reasoning_and_prose() {
    assert_eq!(json_candidate("<think>x</think>Sonuç: {\"a\":1} bitti"), "{\"a\":1}");
    assert_eq!(json_candidate("  plain  "), "plain");
}

#[test]
fn identity_reads_trimmed_fields_and_flags_missing_name_and_number() {
    let out = parse_student_identity_ocr_output(
        r#"{"displayName":"  Ayşe Yılmaz ","number":"","className":"9-A","confidence":0.9,"needsReview":false,"warnings":[" w1 ",""]}"#,
        read_json,
    );
    assert_eq!(out.output.display_name.as_deref(), Some("Ayşe Yılmaz"));
    assert_eq!(out.output.number, None);
    assert_eq!(out.output.class_name.as_deref(), Some("9-A"));
    assert_eq!(out.output.confidence.as_deref(), Some("0.9"));
    assert!(!out.output.needs_review);
    assert_eq!(out.output.warnings, vec!["w1".to_string()]);
    assert_eq!(out.parse_strategy, "json");

    let out = identity_from_json(read_json(r#"{"className":"9-A"}"#).unwrap());
    assert!(out.output.needs_review);
    assert_eq!(out.output.warnings, vec!["identity_name_or_number_missing".to_string()]);
}

#[test]
fn identity_parse_failure_is_flagged() {
    let out = parse_student_identity_ocr_output("{broken", read_json);
    assert!(out.parse_error.is_some());
    assert!(out.output.needs_review);
    assert_eq!(out.parse_strategy, "parse_failed");
    assert_eq!(out.output.warnings, vec!["identity_ocr_json_parse_failed".to_string()]);
    let out = identity_parse_failed("e".to_string());
    assert_eq!(out.parse_error.as_deref(), Some("e"));
    assert!(out.parsed_json.is_none());
}

#[test]
fn only_2xx_replies_count() {
    assert!(check_http_status(200, String::new()).is_ok());
    assert!(check_http_status(299, String::new()).is_ok());
    let e = check_http_status(300, "body".to_string()).unwrap_err();
    assert_eq!(e.code, AppErrorCode::ModelHealthFailed);
    assert_eq!(e.technical_details.as_deref(), Some("body"));
    assert!(check_http_status(199, String::new()).is_err());
}

#[test]
fn blank_replies_are_refused_by_kind() {
    assert!(check_reply_content("x", " {} ").is_ok());
    let e = check_reply_content("<think>only thoughts</think>", "  ").unwrap_err();
    assert_eq!(e.code, AppErrorCode::ModelResponseReasoningOnly);
    let e = check_reply_content("", "").unwrap_err();
    assert_eq!(e.code, AppErrorCode::ModelResponseEmpty);
}
