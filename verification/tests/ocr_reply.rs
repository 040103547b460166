use rubrika_models::json::{JsonEntry, JsonNumber, JsonValue};
use rubrika_models::ocr_reply::{
    contains_ocr_commentary, critical_term_warnings_field, highlight_region_field,
    json_answer_text, marks_unreadable, ocr_parse_attempts, ocr_review, printed_question_leak,
    salvage_student_answer_text, split_words, suggested_corrections_field, uncertain_spans_field,
    parse_student_answer_ocr_output, review_issue_correction, student_answer_ocr_outcome,
    StudentAnswerOcrParseOutcome, OcrReviewFacts, StudentAnswerOcrIssueCorrectionDecision,
};
use rubrika_models::errors::AppErrorCode;

fn to_json(v: &serde_json::Value) -> JsonValue {
    match v {
        serde_json::Value::Null => JsonValue::Null,
        serde_json::Value::Bool(b) => JsonValue::Bool(*b),
        serde_json::Value::Number(n) => JsonValue::Num(JsonNumber {
            unsigned: n.as_u64(),
            signed: n.as_i64(),
            text: n.to_string(),
        }),
        serde_json::Value::String(s) => JsonValue::Str(s.clone()),
        serde_json::Value::Array(items) => JsonValue::Arr(items.iter().map(to_json).collect()),
        serde_json::Value::Object(map) => JsonValue::Obj(
            map.iter()
                .map(|(k, v)| JsonEntry { key: k.clone(), value: to_json(v) })
                .collect(),
        ),
    }
}

fn read_json(text: &str) -> Result<JsonValue, String> {
    serde_json::from_str::<serde_json::Value>(text)
        .map(|v| to_json(&v))
        .map_err(|e| e.to_string())
}

fn no_facts() -> OcrReviewFacts {
    OcrReviewFacts {
        structured_answer_invalid: false,
        printed_question_leak_detected: false,
        answer_blank: false,
        unreadable_span: false,
        commentary_detected: false,
        parse_failed: false,
        low_confidence: false,
    }
}

const METADATA: &str = r#"{"answerText":"çelişen sözcük kullanımı","confidence":0.73,"uncertainSpans":[{"text":"çelişen","start":0,"end":8,"alternatives":["gelişen"],"confidence":0.41,"reason":"handwriting_ambiguity","highlightRegion":{"x":0.1,"y":0.2,"width":0.3,"height":0.1,"pageIndex":0}}],"suggestedCorrections":[{"originalText":"çelişen","suggestedText":"gelişen","reason":"near_match","confidence":0.41,"applied":false,"highlightRegion":{"x":0.2,"y":0.3,"width":0.2,"height":0.1,"pageIndex":0}}],"criticalTermWarnings":[{"observedText":"çelişen sözcük kullanımı","expectedOrRelatedTerm":"gelişen sözcük kullanımı","reason":"semantic_confusion","warningCode":"critical_keyword_ocr_uncertain","highlightRegion":{"x":0.15,"y":0.35,"width":0.4,"height":0.12,"pageIndex":0}}],"ocrSemanticWarnings":["critical_keyword_ocr_uncertain"],"criticalKeywordUncertain":true,"reviewReasons":[],"warnings":[]}"#;

#[test]
fn uncertainty_metadata_is_read_with_regions() {
    let v = read_json(METADATA).unwrap();
    let spans = uncertain_spans_field(&v);
    assert_eq!(spans.len(), 1);
    assert_eq!(spans[0].text, "çelişen");
    assert_eq!(spans[0].start, Some(0));
    assert_eq!(spans[0].end, Some(8));
    assert_eq!(spans[0].alternatives, vec!["gelişen".to_string()]);
    assert_eq!(spans[0].confidence.as_deref(), Some("0.41"));
    assert_eq!(spans[0].reason, "handwriting_ambiguity");
    let region = spans[0].highlight_region.as_ref().unwrap();
    assert_eq!(region.x, "0.1");
    assert_eq!(region.page_index, 0);
    let corrections = suggested_corrections_field(&v);
    assert_eq!(corrections.len(), 1);
    assert!(!corrections[0].applied);
    assert!(corrections[0].highlight_region.is_some());
    let warnings = critical_term_warnings_field(&v);
    assert_eq!(warnings.len(), 1);
    assert_eq!(warnings[0].warning_code, "critical_keyword_ocr_uncertain");
    assert!(warnings[0].highlight_region.is_some());

    let review = ocr_review(&v, no_facts()).unwrap();
    assert!(review.critical_keyword_uncertain);
    assert!(review.needs_review);
    assert!(review.review_reasons.iter().any(|r| r == "critical_keyword_uncertain"));
    assert!(review.warnings.iter().any(|w| w == "critical_keyword_ocr_uncertain"));
    // The reply lacks needsReview: its schema is incomplete.
    assert!(review.review_reasons.iter().any(|r| r == "ocr_schema_incomplete"));
}

#[test]
fn items_without_text_are_skipped_and_defaults_apply() {
    let v = read_json(
        r#"{"uncertain_spans":[{"value":" x "},{"text":"  "},5],"suggested_corrections":[{"original_text":"a"},{"original_text":"a","suggested_text":"b"}],"critical_term_warnings":[{"observed_text":"o","expectedTerm":"e","warning_code":"ocr_critical_keyword_uncertain"}]}"#,
    )
    .unwrap();
    let spans = uncertain_spans_field(&v);
    assert_eq!(spans.len(), 1);
    assert_eq!(spans[0].text, "x");
    assert_eq!(spans[0].reason, "critical_term_uncertain");
    assert!(spans[0].highlight_region.is_none());
    let corrections = suggested_corrections_field(&v);
    assert_eq!(corrections.len(), 1);
    assert_eq!(corrections[0].reason, "critical_term_suggestion");
    let warnings = critical_term_warnings_field(&v);
    assert_eq!(warnings[0].warning_code, "critical_keyword_ocr_uncertain");
    assert_eq!(warnings[0].expected_or_related_term, "e");
}

#[test]
fn region_needs_all_numbers_and_a_page_index() {
    let v = read_json(r#"{"bbox":{"x":1,"y":2,"width":3,"height":"4","pageIndex":0}}"#).unwrap();
    assert!(highlight_region_field(&v).is_none());
    let v = read_json(r#"{"normalized_bbox":{"x":1,"y":2,"width":3,"height":4,"page_index":4294967298}}"#).unwrap();
    assert_eq!(highlight_region_field(&v).unwrap().page_index, 2);
}

#[test]
fn scoring_fields_are_ignored_and_flagged() {
    let v = read_json(
        r#"{"answerText":"Cevap","structuredAnswer":{"kind":"text"},"confidence":0.84,"needsReview":true,"reviewReasons":["handwriting"],"warnings":["layout"],"score":10,"points":12,"criteria":[{"label":"x"}]}"#,
    )
    .unwrap();
    let review = ocr_review(&v, no_facts()).unwrap();
    assert!(review.needs_review);
    assert_eq!(
        review.review_reasons,
        vec!["handwriting".to_string(), "ocr_scoring_fields_present".to_string()]
    );
    assert_eq!(
        review.warnings,
        vec!["layout".to_string(), "ocr_scoring_fields_ignored".to_string()]
    );
    assert_eq!(json_answer_text(&v).as_deref(), Some("Cevap"));
}

#[test]
fn incomplete_contract_goes_to_review() {
    let v = read_json(r#"{"answerText":"yalnızca görülen metin"}"#).unwrap();
    let review = ocr_review(&v, no_facts()).unwrap();
    assert!(review.needs_review);
    assert!(review.review_reasons.contains(&"ocr_schema_incomplete".to_string()));
}

#[test]
fn findings_add_sorted_distinct_reasons() {
    let v = read_json(
        r#"{"answerText":"a","confidence":0.95,"needsReview":false,"reviewReasons":["parse_failed","zz","parse_failed"],"warnings":["ocr_critical_keyword_uncertain"]}"#,
    )
    .unwrap();
    let mut facts = no_facts();
    facts.commentary_detected = true;
    facts.parse_failed = true;
    facts.low_confidence = true;
    let review = ocr_review(&v, facts).unwrap();
    assert!(review.needs_review);
    assert_eq!(
        review.review_reasons,
        vec![
            "ocr_commentary_detected".to_string(),
            "ocr_low_confidence".to_string(),
            "parse_failed".to_string(),
            "zz".to_string(),
        ]
    );
    assert_eq!(
        review.warnings,
        vec![
            "critical_keyword_ocr_uncertain".to_string(),
            "ocr_commentary_detected".to_string(),
            "ocr_low_confidence".to_string(),
            "ocr_parse_failed".to_string(),
        ]
    );
    assert!(!review.critical_keyword_uncertain);
    let clean = ocr_review(&v, no_facts()).unwrap();
    assert!(!clean.needs_review);
}

#[test]
fn a_non_object_reply_has_no_review() {
    assert!(ocr_review(&read_json("[1,2]").unwrap(), no_facts()).is_none());
}

#[test]
fn printed_question_leak_is_detected_on_normalised_text() {
    assert!(printed_question_leak("soru metni", "soru metni"));
    assert!(printed_question_leak("bu soru metni uzun", "soru metni"));
    assert!(printed_question_leak("a b c d", "d c b a e"));
    assert!(!printed_question_leak("a b c", "d c b a e"));
    assert!(!printed_question_leak("", "soru"));
    assert!(!printed_question_leak("cevap", "soru"));
}

#[test]
fn words_split_on_white_space() {
    assert_eq!(split_words("  bir  iki\tüç\n"), vec!["bir", "iki", "üç"]);
    assert!(split_words("   ").is_empty());
}

#[test]
fn commentary_and_unreadable_markers() {
    assert!(contains_ocr_commentary("ogrencinin cevabi burada enerji donusumunu anlatmaktadir"));
    assert!(!contains_ocr_commentary("enerji donusumu"));
    assert!(marks_unreadable("kelime okunamadi burada"));
    assert!(!marks_unreadable("okundu"));
}

#[test]
fn salvage_takes_the_answer_field_or_the_cleaned_text() {
    assert_eq!(salvage_student_answer_text("```json\n{broken\n```", "raw", &read_json), "{broken");
    assert_eq!(
        salvage_student_answer_text("{\"answer\":\"  Cevap \"}", "raw", &read_json),
        "Cevap"
    );
    assert_eq!(salvage_student_answer_text("   ", "  raw ", &read_json), "raw");
}

#[test]
fn attempts_come_in_order() {
    let attempts = ocr_parse_attempts("Açıklama\n```json\n{\"answerText\":\"Cevap\"}\n```");
    let names: Vec<&str> = attempts.iter().map(|a| a.0.as_str()).collect();
    assert_eq!(names, vec!["strict_json", "fenced_json", "trailing_prose_trim", "balanced_json"]);
    assert_eq!(attempts[1].1, "{\"answerText\":\"Cevap\"}");
    assert!(read_json(&attempts[0].1).is_err());
    assert!(read_json(&attempts[1].1).is_ok());
}

#[test]
fn issue_correction_within_scope_is_kept() {
    let out = review_issue_correction(
        StudentAnswerOcrIssueCorrectionDecision::SuggestCorrection,
        "gelşeqiz",
        Some("çelişen".to_string()),
        Some(" gelşeqiz ".to_string()),
        "Visual and OCR hint align",
        vec![],
        false,
    )
    .unwrap();
    assert_eq!(out.decision, StudentAnswerOcrIssueCorrectionDecision::SuggestCorrection);
    assert_eq!(out.original_text, "gelşeqiz");
    assert_eq!(out.suggested_text.as_deref(), Some("çelişen"));
    assert_eq!(out.visual_reading.as_deref(), Some("gelşeqiz"));
    assert!(out.requires_teacher_approval);
    assert!(out.warnings.is_empty());
}

#[test]
fn issue_correction_scope_expansion_is_blocked() {
    let out = review_issue_correction(
        StudentAnswerOcrIssueCorrectionDecision::SuggestCorrection,
        "gelşeqiz",
        Some("çelişen sözcüklerin bir arada kullanılması".to_string()),
        None,
        "Too broad",
        vec![],
        true,
    )
    .unwrap();
    assert_eq!(out.decision, StudentAnswerOcrIssueCorrectionDecision::NeedsTeacherReview);
    assert!(out.suggested_text.is_none());
    assert_eq!(
        out.warnings,
        vec!["scope_expansion_blocked".to_string(), "suggestion_confidence_low".to_string()]
    );
}

#[test]
fn issue_correction_without_text_or_change() {
    let out = review_issue_correction(
        StudentAnswerOcrIssueCorrectionDecision::SuggestCorrection,
        "iki kelime",
        Some("   ".to_string()),
        None,
        "r",
        vec!["b".to_string(), "a".to_string(), "b".to_string()],
        false,
    )
    .unwrap();
    assert_eq!(out.decision, StudentAnswerOcrIssueCorrectionDecision::NeedsTeacherReview);
    assert_eq!(out.warnings, vec!["a", "b", "issue_context_missing"]);
    let out = review_issue_correction(
        StudentAnswerOcrIssueCorrectionDecision::NoChange,
        "kelime",
        Some("başka".to_string()),
        None,
        "r",
        vec![],
        false,
    )
    .unwrap();
    assert!(out.suggested_text.is_none());
    assert_eq!(out.decision, StudentAnswerOcrIssueCorrectionDecision::NoChange);
}

#[test]
fn issue_correction_needs_text_and_reason() {
    let e = review_issue_correction(
        StudentAnswerOcrIssueCorrectionDecision::NoChange, "  ", None, None, "r", vec![], false,
    )
    .unwrap_err();
    assert_eq!(e.code, AppErrorCode::ModelResponseInvalidSchema);
    let e = review_issue_correction(
        StudentAnswerOcrIssueCorrectionDecision::NoChange, "x", None, None, "\n", vec![], false,
    )
    .unwrap_err();
    assert_eq!(e.code, AppErrorCode::ModelResponseInvalidSchema);
}

#[test]
fn leak_detection_is_symmetric() {
    for (a, q) in [("a b c d", "d c b a e"), ("a b c", "d c b a e"), ("soru", "bu soru"), ("x", "")] {
        assert_eq!(printed_question_leak(a, q), printed_question_leak(q, a), "{a} / {q}");
    }
}

fn fold(text: &str) -> String {
    text.to_lowercase().replace('ı', "i").replace('ö', "o").replace('ü', "u").replace('ş', "s").replace('ç', "c").replace('ğ', "g")
}

#[test]
fn ocr_outcome_is_assembled_from_the_reply() {
    let raw = r#"{"answerText":" Fotosentez ışık ile olur ","confidence":0.42,"needsReview":false,"warnings":[]}"#;
    let value = read_json(raw).unwrap();
    let outcome = student_answer_ocr_outcome(
        value, raw, "strict_json", None, "Fotosentez nedir?", raw, &read_json, &fold, false, true,
    )
    .expect("an object reply");
    assert_eq!(outcome.answer_text, "Fotosentez ışık ile olur");
    assert_eq!(outcome.confidence.as_deref(), Some("0.42"));
    assert_eq!(outcome.parse_strategy, "strict_json");
    assert!(outcome.parse_error.is_none());
    assert!(outcome.parsed_json.is_some());
    assert_eq!(outcome.salvaged_answer_text.as_deref(), Some("Fotosentez ışık ile olur"));
    assert!(outcome.review.needs_review);
    assert_eq!(outcome.review.review_reasons, vec!["ocr_low_confidence".to_string()]);
    assert!(!outcome.printed_question_leak_detected);
    assert!(!outcome.printed_text_mixed);
}

#[test]
fn ocr_outcome_flags_a_blank_answer_and_commentary() {
    let raw = r#"{"answerText":"Öğrencinin cevabı okunamadı","confidence":0.9,"needsReview":false}"#;
    let value = read_json(raw).unwrap();
    let outcome = student_answer_ocr_outcome(
        value, raw, "balanced_json", Some("e".to_string()), "Soru", raw, &read_json, &fold, true, false,
    )
    .unwrap();
    assert_eq!(
        outcome.review.review_reasons,
        vec![
            "ocr_commentary_detected".to_string(),
            "ocr_unreadable_span".to_string(),
            "parse_failed".to_string(),
            "structured_answer_invalid".to_string(),
        ]
    );
    assert_eq!(outcome.parse_error.as_deref(), Some("e"));
    let blank = r#"{"answerText":"","confidence":0.9,"needsReview":false}"#;
    let outcome = student_answer_ocr_outcome(
        read_json(blank).unwrap(), "", "strict_json", None, "Soru", "  ", &read_json, &fold, false, false,
    )
    .unwrap();
    assert_eq!(outcome.answer_text, "");
    assert!(outcome.printed_text_mixed);
    assert!(outcome.review.review_reasons.contains(&"ocr_answer_empty".to_string()));
    assert!(student_answer_ocr_outcome(
        JsonValue::Arr(vec![]), "", "strict_json", None, "Soru", "", &read_json, &fold, false, false,
    )
    .is_none());
}

/// The review policy's threshold in these tests: a confidence under 0.7
/// (none counts as zero) goes to review.
fn below_threshold(confidence: Option<&str>) -> bool {
    confidence.and_then(|t| t.parse::<f64>().ok()).unwrap_or(0.0) < 0.7
}

fn no_structured_error(_: &JsonValue) -> bool {
    false
}

fn parse_ocr(raw: &str, question_text: &str) -> StudentAnswerOcrParseOutcome {
    parse_student_answer_ocr_output(raw, question_text, &read_json, &fold, &no_structured_error, &below_threshold)
}

fn confidence_of(outcome: &StudentAnswerOcrParseOutcome) -> f32 {
    outcome.confidence.as_deref().and_then(|t| t.parse::<f32>().ok()).unwrap_or(0.0)
}

#[test]
fn test_parse_student_answer_ocr_output_ignores_scoring_fields() {
    let outcome = parse_ocr(
        r#"{"answerText":"Cevap","structuredAnswer":{"kind":"text"},"confidence":0.84,"needsReview":true,"reviewReasons":["handwriting"],"warnings":["layout"],"score":10,"points":12,"criteria":[{"label":"x"}]}"#,
        "Soru metni",
    );
    assert_eq!(outcome.answer_text, "Cevap");
    assert_eq!(confidence_of(&outcome), 0.84);
    assert!(outcome.has_structured_answer);
    assert!(outcome.review.warnings.iter().any(|warning| warning == "ocr_scoring_fields_ignored"));
    assert!(outcome.review.needs_review);
    assert!(outcome.review.review_reasons.iter().any(|reason| reason == "ocr_scoring_fields_present"));
}

#[test]
fn test_parse_student_answer_ocr_output_flags_commentary_instead_of_accepting_it() {
    let outcome = parse_ocr(
        r#"{"answerText":"Öğrencinin cevabı burada enerji dönüşümünü anlatmaktadır.","confidence":0.95,"needsReview":false,"reviewReasons":[],"warnings":[]}"#,
        "Enerji dönüşümünü açıklayınız.",
    );
    assert!(outcome.review.needs_review);
    assert!(outcome.review.review_reasons.contains(&"ocr_commentary_detected".to_string()));
}

#[test]
fn test_parse_student_answer_ocr_output_flags_incomplete_contract() {
    let outcome = parse_ocr(r#"{"answerText":"yalnızca görülen metin"}"#, "Soru metni");
    assert!(outcome.review.needs_review);
    assert!(outcome.review.review_reasons.contains(&"ocr_schema_incomplete".to_string()));
}

#[test]
fn test_parse_student_answer_ocr_output_parses_uncertainty_metadata() {
    let outcome = parse_ocr(
        r#"{"answerText":"çelişen sözcük kullanımı","confidence":0.73,"uncertainSpans":[{"text":"çelişen","start":0,"end":8,"alternatives":["gelişen"],"confidence":0.41,"reason":"handwriting_ambiguity","highlightRegion":{"x":0.1,"y":0.2,"width":0.3,"height":0.1,"pageIndex":0}}],"suggestedCorrections":[{"originalText":"çelişen","suggestedText":"gelişen","reason":"near_match","confidence":0.41,"applied":false,"highlightRegion":{"x":0.2,"y":0.3,"width":0.2,"height":0.1,"pageIndex":0}}],"criticalTermWarnings":[{"observedText":"çelişen sözcük kullanımı","expectedOrRelatedTerm":"gelişen sözcük kullanımı","reason":"semantic_confusion","warningCode":"critical_keyword_ocr_uncertain","highlightRegion":{"x":0.15,"y":0.35,"width":0.4,"height":0.12,"pageIndex":0}}],"ocrSemanticWarnings":["critical_keyword_ocr_uncertain"],"criticalKeywordUncertain":true,"reviewReasons":[],"warnings":[]}"#,
        "Soru metni",
    );
    assert!(outcome.review.critical_keyword_uncertain);
    assert_eq!(outcome.review.uncertain_spans.len(), 1);
    assert_eq!(outcome.review.suggested_corrections.len(), 1);
    assert_eq!(outcome.review.critical_term_warnings.len(), 1);
    assert!(outcome.review.uncertain_spans[0].highlight_region.is_some());
    assert!(outcome.review.suggested_corrections[0].highlight_region.is_some());
    assert!(outcome.review.critical_term_warnings[0].highlight_region.is_some());
    assert!(outcome.review.review_reasons.iter().any(|reason| reason == "critical_keyword_uncertain"));
    assert!(outcome.review.warnings.iter().any(|warning| {
        warning == "critical_keyword_ocr_uncertain" || warning == "ocr_critical_keyword_uncertain"
    }));
}

#[test]
fn test_parse_student_answer_ocr_output_forces_review_below_confidence_threshold() {
    let outcome = parse_ocr(
        r#"{"answerText":"Belirsiz el yazısı","confidence":0.65,"needsReview":false,"reviewReasons":[],"warnings":[]}"#,
        "Soru metni",
    );
    assert!(outcome.review.needs_review);
    assert!(outcome.review.review_reasons.iter().any(|reason| reason == "ocr_low_confidence"));
}

#[test]
fn test_parse_student_answer_ocr_output_handles_fenced_json() {
    let outcome = parse_ocr(
        "Açıklama\n```json\n{\"answerText\":\"Cevap\",\"reviewReasons\":[],\"warnings\":[]}\n```",
        "Soru metni",
    );
    assert_eq!(outcome.answer_text, "Cevap");
    assert_eq!(outcome.parse_strategy, "fenced_json");
    assert!(outcome.parse_error.is_none());
}

#[test]
fn test_parse_student_answer_ocr_output_handles_trailing_prose() {
    let outcome = parse_ocr(
        r#"{"answerText":"Cevap","reviewReasons":[],"warnings":[]} açıklama fazlası"#,
        "Soru metni",
    );
    assert_eq!(outcome.answer_text, "Cevap");
    assert_eq!(outcome.parse_strategy, "trailing_prose_trim");
    assert!(outcome.parse_error.is_none());
}

#[test]
fn test_parse_student_answer_ocr_output_salvages_raw_text_on_malformed_json() {
    let outcome = parse_ocr("```json\n{broken\n```", "Soru metni");
    assert_eq!(outcome.parse_strategy, "raw_text_salvage");
    assert!(outcome.parse_error.is_some());
    assert_eq!(outcome.salvaged_answer_text.as_deref(), Some("{broken"));
    assert_eq!(outcome.answer_text, "{broken");
    assert!(outcome.review.needs_review);
}

#[test]
fn test_parse_student_answer_ocr_output_flags_printed_question_leak() {
    let outcome = parse_ocr(r#"{"answerText":"Soru metni","reviewReasons":[],"warnings":[]}"#, "Soru metni");
    assert!(outcome.printed_question_leak_detected);
    assert!(outcome.printed_text_mixed);
    assert!(outcome.review.review_reasons.iter().any(|reason| reason == "printed_question_leak_detected"));
}

#[test]
fn salvaged_ocr_reply_is_a_parse_failure() {
    let outcome = parse_ocr("Soru metni", "Soru metni");
    assert_eq!(outcome.parse_strategy, "raw_text_salvage");
    assert_eq!(outcome.parse_error.as_deref(), Some("Öğrenci OCR JSON çıktısı çözülemedi."));
    assert_eq!(outcome.review.review_reasons, vec!["parse_failed".to_string()]);
    assert_eq!(outcome.review.ocr_semantic_warnings, vec!["ocr_parse_failed".to_string()]);
    assert_eq!(
        outcome.review.warnings,
        vec!["ocr_parse_failed".to_string(), "printed_question_leak_detected".to_string()]
    );
    assert!(outcome.printed_text_mixed);
    assert!(outcome.confidence.is_none());
    assert!(!outcome.has_structured_answer);
}

/// Reads the typed shape of an issue-correction reply and hands its fields
/// to the library's check.
fn issue_correction(raw: &str) -> rubrika_models::ocr_reply::IssueCorrectionReview {
    let v: serde_json::Value = serde_json::from_str(raw).unwrap();
    let text = |key: &str| v.get(key).and_then(|x| x.as_str()).map(str::to_string);
    let decision = match v["decision"].as_str().unwrap() {
        "suggest_correction" => StudentAnswerOcrIssueCorrectionDecision::SuggestCorrection,
        "no_change" => StudentAnswerOcrIssueCorrectionDecision::NoChange,
        _ => StudentAnswerOcrIssueCorrectionDecision::NeedsTeacherReview,
    };
    let warnings = v["warnings"]
        .as_array()
        .unwrap()
        .iter()
        .filter_map(|w| w.as_str().map(str::to_string))
        .collect();
    let confidence_low = v["confidence"].as_f64().unwrap_or(0.0) < 0.7;
    review_issue_correction(
        decision,
        &text("originalText").unwrap(),
        text("suggestedText"),
        text("visualReading"),
        &text("contextReason").unwrap(),
        warnings,
        confidence_low,
    )
    .expect("issue correction output")
}

#[test]
fn test_parse_student_answer_issue_correction_output_accepts_strict_json() {
    let output = issue_correction(
        r#"{"decision":"suggest_correction","originalText":"gelşeqiz","suggestedText":"çelişen","scope":"single_word","visualReading":"gelşeqiz","contextReason":"Visual and OCR hint align","confidence":0.91,"requiresTeacherApproval":true,"warnings":[]}"#,
    );
    assert!(matches!(output.decision, StudentAnswerOcrIssueCorrectionDecision::SuggestCorrection));
    assert_eq!(output.original_text, "gelşeqiz");
    assert_eq!(output.suggested_text.as_deref(), Some("çelişen"));
    assert!(output.requires_teacher_approval);
}

#[test]
fn test_parse_student_answer_issue_correction_output_blocks_scope_expansion() {
    let output = issue_correction(
        r#"{"decision":"suggest_correction","originalText":"gelşeqiz","suggestedText":"çelişen sözcüklerin bir arada kullanılması","scope":"single_word","visualReading":"gelşeqiz","contextReason":"Too broad","confidence":0.42,"requiresTeacherApproval":true,"warnings":[]}"#,
    );
    assert!(matches!(output.decision, StudentAnswerOcrIssueCorrectionDecision::NeedsTeacherReview));
    assert!(output.suggested_text.is_none());
    assert!(output.warnings.iter().any(|warning| warning == "scope_expansion_blocked"));
}
