use rubrika_models::errors::AppErrorCode;
use rubrika_models::json::{JsonEntry, JsonNumber, JsonValue};
use rubrika_models::speaking_reply::{
    parse_speaking_transcript_cleanup_output, SpeakingTranscriptCleanupOutputSegment,
};

fn to_json(v: &serde_json::Value) -> JsonValue {
    match v {
        serde_json::Value::Null => JsonValue::Null,
        serde_json::Value::Bool(b) => JsonValue::Bool(*b),
        serde_json::Value::Number(n) => JsonValue::Num(JsonNumber {
            unsigned: n.as_u64(),
            signed: n.as_i64(),
            text: n.to_string(),
        }),
        serde_json::Value::String(s) => JsonValue::Str(s.clone()),
        serde_json::Value::Array(items) => JsonValue::Arr(items.iter().map(to_json).collect()),
        serde_json::Value::Object(map) => JsonValue::Obj(
            map.iter()
                .map(|(k, v)| JsonEntry { key: k.clone(), value: to_json(v) })
                .collect(),
        ),
    }
}

fn read_json(text: &str) -> Result<JsonValue, String> {
    serde_json::from_str::<serde_json::Value>(text)
        .map(|v| to_json(&v))
        .map_err(|e| e.to_string())
}

fn field<'a>(entries: &'a [JsonEntry], key: &str) -> Option<&'a JsonValue> {
    entries.iter().find(|e| e.key == key).map(|e| &e.value)
}

/// The segment of the typed shape: all five fields, snake case.
fn typed(v: &JsonValue) -> Option<SpeakingTranscriptCleanupOutputSegment> {
    let JsonValue::Obj(entries) = v else { return None };
    let Some(JsonValue::Str(id)) = field(entries, "segment_id") else { return None };
    let Some(JsonValue::Str(text)) = field(entries, "cleaned_text") else { return None };
    let Some(JsonValue::Arr(_)) = field(entries, "changes") else { return None };
    let Some(JsonValue::Bool(sem)) = field(entries, "semantic_change_detected") else { return None };
    let Some(JsonValue::Bool(review)) = field(entries, "needs_review") else { return None };
    Some(SpeakingTranscriptCleanupOutputSegment {
        segment_id: id.clone(),
        cleaned_text: text.clone(),
        changes: Vec::new(),
        semantic_change_detected: *sem,
        needs_review: *review,
    })
}

fn parse(raw: &str) -> Result<Vec<SpeakingTranscriptCleanupOutputSegment>, rubrika_models::errors::AppError> {
    parse_speaking_transcript_cleanup_output(raw, &read_json, &typed)
}

#[test]
fn test_parse_speaking_transcript_cleanup_output_snake_case_and_camel_case() {
    let snake_json = r#"{"segments":[{"segment_id":"seg-1","cleaned_text":"Merhaba dunya","changes":[],"semantic_change_detected":false,"needs_review":false}]}"#;
    let res = parse(snake_json).unwrap();
    assert_eq!(res.len(), 1);
    assert_eq!(res[0].segment_id, "seg-1");
    assert_eq!(res[0].cleaned_text, "Merhaba dunya");

    let camel_json = r#"{"segments":[{"segmentId":"seg-2","cleanedText":"Test mesaji","changes":[],"semanticChangeDetected":true,"needsReview":true}]}"#;
    let res2 = parse(camel_json).unwrap();
    assert_eq!(res2.len(), 1);
    assert_eq!(res2[0].segment_id, "seg-2");
    assert_eq!(res2[0].cleaned_text, "Test mesaji");
    assert!(res2[0].semantic_change_detected);
    assert!(res2[0].needs_review);
}

#[test]
fn test_parse_speaking_transcript_cleanup_output_fenced_and_root_array() {
    let fenced = "<think>Düşünüyorum...</think>\n```json\n[{\"id\":\"seg-10\",\"text\":\"Satir 1\"}]\n```";
    let res = parse(fenced).unwrap();
    assert_eq!(res.len(), 1);
    assert_eq!(res[0].segment_id, "seg-10");
    assert_eq!(res[0].cleaned_text, "Satir 1");
}

#[test]
fn test_parse_speaking_transcript_cleanup_output_unescaped_newlines() {
    let unescaped = "{\"segments\":[{\"segment_id\":\"seg-1\",\"cleaned_text\":\"Satir 1\nSatir 2\"}]}";
    let res = parse(unescaped).unwrap();
    assert_eq!(res.len(), 1);
    assert_eq!(res[0].segment_id, "seg-1");
    assert_eq!(res[0].cleaned_text, "Satir 1\nSatir 2");
}

#[test]
fn test_parse_speaking_transcript_cleanup_output_with_wrapper_prose_and_nested_array() {
    let wrapped = r#"Model cevabı:
{"segments":[{"segment_id":"seg-1","cleaned_text":"Birinci cümle"},{"segment_id":"seg-2","cleaned_text":"İkinci cümle"}]}
İşlem tamamlandı."#;
    let result = parse(wrapped).unwrap();
    assert_eq!(result.len(), 2);
    assert_eq!(result[1].segment_id, "seg-2");

    let root_array = r#"İşte çıktı: [{"id":"seg-1","text":"Birinci cümle"},{"id":"seg-2","text":"İkinci cümle"}]"#;
    let result = parse(root_array).unwrap();
    assert_eq!(result.len(), 2);
    assert_eq!(result[0].cleaned_text, "Birinci cümle");
}

#[test]
fn test_parse_speaking_transcript_cleanup_output_accepts_common_root_aliases() {
    let output = r#"{"cleanedSegments":[{"index":0,"content":"Temiz metin"}]}"#;
    let result = parse(output).unwrap();
    assert_eq!(result.len(), 1);
    assert_eq!(result[0].segment_id, "0");
    assert_eq!(result[0].cleaned_text, "Temiz metin");

    let nested = r#"{"result":{"output":{"segments":[{"segmentId":"seg-2","text":"İç içe çıktı"}]}}}"#;
    let result = parse(nested).unwrap();
    assert_eq!(result[0].cleaned_text, "İç içe çıktı");
}

#[test]
fn test_parse_speaking_transcript_cleanup_output_distinguishes_schema_error() {
    let error = parse(r#"{"cleanedTranscript":"Sadece metin döndü"}"#).unwrap_err();
    assert_eq!(error.code, AppErrorCode::ModelResponseInvalidSchema);
    assert!(error.message.contains("beklenen segment şemasında"));
}

#[test]
fn cleanup_replies_without_json_or_content_are_refused() {
    assert_eq!(parse("no json here").unwrap_err().code, AppErrorCode::ModelResponseInvalidJson);
    assert_eq!(parse("<think>x</think>").unwrap_err().code, AppErrorCode::ModelResponseReasoningOnly);
    assert_eq!(parse("   ").unwrap_err().code, AppErrorCode::ModelResponseEmpty);
    assert!(parse("[]").unwrap().is_empty());
}

#[test]
fn a_segment_without_text_fails_the_list() {
    let err = parse(r#"{"segments":[{"id":"1","text":"a"},{"id":"2"}]}"#).unwrap_err();
    assert_eq!(err.code, AppErrorCode::ModelResponseInvalidSchema);
}
