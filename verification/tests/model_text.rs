use rubrika_models::model_text::{answer_type_from_label, AnswerType};
use rubrika_models::model_text::{
    extract_balanced_json_from_start, extract_fenced_json_candidate,
    extract_first_balanced_json_candidate, issue_scope_from_text, normalize_alias_warning,
    normalize_ocr_warning_code, preprocess_mode_label, remove_think_blocks,
    sanitize_json_control_chars, scope_allows_text, strip_reasoning_and_fences,
    OcrImagePreprocessMode, StudentAnswerOcrIssueCorrectionScope,
};

#[test]
fn think_blocks_are_removed() {
    assert_eq!(remove_think_blocks("a<think>x</think>b<think>y</think>c"), "abc");
    assert_eq!(remove_think_blocks("önce<think>açık kaldı"), "önce");
    assert_eq!(remove_think_blocks("no blocks"), "no blocks");
    assert_eq!(remove_think_blocks("</think>x"), "</think>x");
}

#[test]
fn fenced_json_is_preferred() {
    let text = "<think>plan</think>\nCevap:\n```json\n{\"a\": 1}\n```\nson";
    assert_eq!(strip_reasoning_and_fences(text), "{\"a\": 1}");
    assert_eq!(strip_reasoning_and_fences("```\n[1, 2]\n```"), "[1, 2]");
}

#[test]
fn balanced_value_is_taken_from_prose() {
    assert_eq!(strip_reasoning_and_fences("İşte: {\"a\": \"}\"} bitti"), "{\"a\": \"}\"}");
    assert_eq!(strip_reasoning_and_fences("x [1, {\"b\": 2}] y"), "[1, {\"b\": 2}]");
}

#[test]
fn truncated_values_fall_back_to_brace_span_or_text() {
    assert_eq!(strip_reasoning_and_fences("a {\"x\": [1, 2} b } c"), "{\"x\": [1, 2} b }");
    assert_eq!(strip_reasoning_and_fences("  düz metin  "), "düz metin");
    assert_eq!(strip_reasoning_and_fences("{\"unterminated\": 1"), "{\"unterminated\": 1");
}

#[test]
fn balanced_extraction_tracks_strings_and_escapes() {
    assert_eq!(
        extract_balanced_json_from_start("pre {\"q\": \"a\\\"}\"} post", 4),
        Some("{\"q\": \"a\\\"}\"}".to_string())
    );
    assert_eq!(extract_balanced_json_from_start("{[}]", 0), None);
    assert_eq!(extract_balanced_json_from_start("{", 0), None);
    assert_eq!(
        extract_first_balanced_json_candidate(" ] {[}] [3] "),
        Some("[3]".to_string())
    );
    assert_eq!(extract_first_balanced_json_candidate("no json"), None);
}

#[test]
fn fenced_candidate_needs_a_closing_fence() {
    assert_eq!(extract_fenced_json_candidate("```json\n{}\n```"), Some("{}".to_string()));
    assert_eq!(extract_fenced_json_candidate("```json\n{}"), None);
    assert_eq!(extract_fenced_json_candidate("a ``` b ``` c"), Some("b".to_string()));
    assert_eq!(extract_fenced_json_candidate("none"), None);
}

#[test]
fn control_characters_inside_strings_are_escaped() {
    assert_eq!(sanitize_json_control_chars("{\"a\": \"x\ny\"}"), "{\"a\": \"x\\ny\"}");
    assert_eq!(sanitize_json_control_chars("{\n\"t\": \"a\tb\r\"}"), "{\n\"t\": \"a\\tb\\r\"}");
    assert_eq!(sanitize_json_control_chars("\"\u{1}\""), "\"\\u0001\"");
    assert_eq!(sanitize_json_control_chars("\"\u{85}\""), "\"\\u0085\"");
    assert_eq!(sanitize_json_control_chars("\"a\\\nb\""), "\"a\\\nb\"");
}

#[test]
fn labels_and_warning_codes() {
    assert_eq!(preprocess_mode_label(&OcrImagePreprocessMode::HandwritingEnhanced), "el yazısı güçlendirildi");
    assert_eq!(preprocess_mode_label(&OcrImagePreprocessMode::Original), "orijinal");
    assert_eq!(normalize_alias_warning("answerText", "text"), "answerText_alias:text");
    assert_eq!(normalize_ocr_warning_code("ocr_critical_keyword_uncertain"), "critical_keyword_ocr_uncertain");
    assert_eq!(normalize_ocr_warning_code("ocr_low_confidence"), "ocr_low_confidence");
}

#[test]
fn correction_scopes_count_words() {
    assert_eq!(issue_scope_from_text("  kelime "), StudentAnswerOcrIssueCorrectionScope::SingleWord);
    assert_eq!(issue_scope_from_text(""), StudentAnswerOcrIssueCorrectionScope::SingleWord);
    assert_eq!(issue_scope_from_text("iki kelime"), StudentAnswerOcrIssueCorrectionScope::ShortPhrase);
    let single = StudentAnswerOcrIssueCorrectionScope::SingleWord;
    let phrase = StudentAnswerOcrIssueCorrectionScope::ShortPhrase;
    assert!(scope_allows_text(&single, None));
    assert!(scope_allows_text(&single, Some(" tek ")));
    assert!(!scope_allows_text(&single, Some("iki söz")));
    assert!(scope_allows_text(&phrase, Some("iki\tsöz")));
    assert!(!scope_allows_text(&phrase, Some("üç ayrı söz")));
}

#[test]
fn answer_type_labels_are_read_trimmed_and_case_blind() {
    assert_eq!(answer_type_from_label("  Essay "), Some(AnswerType::Essay));
    assert_eq!(answer_type_from_label("MULTIPLE_CHOICE"), Some(AnswerType::MultipleChoice));
    assert_eq!(answer_type_from_label("ordering"), Some(AnswerType::SequenceOrdering));
    assert_eq!(answer_type_from_label("grammar_analysis"), Some(AnswerType::GrammarAnalysis));
    assert_eq!(answer_type_from_label("free text"), None);
    assert_eq!(answer_type_from_label(""), None);
}
