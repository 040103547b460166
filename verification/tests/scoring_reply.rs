use rubrika_models::json::{JsonEntry, JsonNumber, JsonValue};
use rubrika_models::scoring_reply::{
    direct_scoring_fields, is_float_literal, parse_scoring_output, scoring_schema_error,
    semantic_scoring_schema_error, ScoringParseOutcome,
};

fn to_json(v: &serde_json::Value) -> JsonValue {
    match v {
        serde_json::Value::Null => JsonValue::Null,
        serde_json::Value::Bool(b) => JsonValue::Bool(*b),
        serde_json::Value::Number(n) => JsonValue::Num(JsonNumber {
            unsigned: n.as_u64(),
            signed: n.as_i64(),
            text: n.to_string(),
        }),
        serde_json::Value::String(s) => JsonValue::Str(s.clone()),
        serde_json::Value::Array(items) => JsonValue::Arr(items.iter().map(to_json).collect()),
        serde_json::Value::Object(map) => JsonValue::Obj(
            map.iter()
                .map(|(k, v)| JsonEntry { key: k.clone(), value: to_json(v) })
                .collect(),
        ),
    }
}

fn read_json(text: &str) -> Result<JsonValue, String> {
    serde_json::from_str::<serde_json::Value>(text)
        .map(|v| to_json(&v))
        .map_err(|e| e.to_string())
}

fn number(text: &str) -> f64 {
    text.parse::<f64>().expect("a number literal")
}

fn score(text: &Option<String>) -> f32 {
    text.as_deref().map(number).unwrap_or(0.0) as f32
}

/// Reads a scoring reply for a question worth `max_score` points.
fn parse(raw: &str, max_score: f32) -> ScoringParseOutcome {
    let score_in_range = |t: &str| {
        let x = number(t);
        x.is_finite() && x >= 0.0 && x <= max_score as f64
    };
    let confidence_in_range = |t: &str| {
        let x = number(t);
        x.is_finite() && (0.0..=1.0).contains(&x)
    };
    parse_scoring_output(raw, &read_json, &score_in_range, &confidence_in_range)
}

#[test]
fn test_parse_scoring_output_normalizes_numeric_ids_and_common_aliases() {
    let outcome = parse(
        r#"{
          "scores": [
            {
              "criterionId": 1,
              "label": "Konuya uygunluk, içerik ve ana düşünce",
              "maxScore": "20",
              "score": "18",
              "feedback": "Konu açıkça ele alınmış.",
              "evidence": [{"quote": "Bugün bu konu hakkında düşünüyorum."}]
            }
          ],
          "score": "18",
          "confidence": 0.9,
          "rationale": "Kanıtlı değerlendirme."
        }"#,
        50.0,
    );
    assert!(outcome.parse_error.is_none());
    assert_eq!(outcome.output.criterion_scores.len(), 1);
    assert_eq!(outcome.output.criterion_scores[0].criterion_id, "1");
    assert_eq!(
        outcome.output.criterion_scores[0].criterion_title,
        "Konuya uygunluk, içerik ve ana düşünce"
    );
    assert_eq!(score(&outcome.output.criterion_scores[0].awarded_score), 18.0);
    assert_eq!(
        outcome.output.criterion_scores[0].evidence_quote.as_deref(),
        Some("Bugün bu konu hakkında düşünüyorum.")
    );
}

#[test]
fn test_parse_scoring_output_preserves_evidence_quote() {
    let outcome = parse(
        r#"{"awardedScore":2,"confidence":0.88,"needsReview":false,"rationale":"Kanıt kriteri destekliyor.","criterionScores":[{"criterionId":"c1","criterionTitle":"Kavram","criterionMaxScore":2,"awardedScore":2,"rationale":"Kavram açıkça yazılmış.","evidenceQuote":"ısı enerjisine dönüşür"}],"warnings":[]}"#,
        2.0,
    );
    assert!(outcome.parse_error.is_none());
    assert_eq!(
        outcome.output.criterion_scores[0].evidence_quote.as_deref(),
        Some("ısı enerjisine dönüşür")
    );
}

#[test]
fn test_parse_scoring_output_rejects_missing_required_schema_fields() {
    let outcome = parse(r#"{"awardedScore":0,"criterionScores":[]}"#, 10.0);
    assert!(outcome.parse_error.is_some());
    assert!(outcome.output.needs_review);
}

#[test]
fn test_parse_scoring_output_rejects_title_as_criterion_id() {
    let outcome = parse(
        r#"{"awardedScore":1,"confidence":0.8,"needsReview":false,"rationale":"Yeterli gerekçe.","criterionScores":[{"criterionTitle":"Kriter","criterionMaxScore":2,"awardedScore":1,"rationale":"Kanıt var.","evidenceQuote":"kanıt"}]}"#,
        2.0,
    );
    assert!(outcome.parse_error.is_some());
    assert_eq!(outcome.output.criterion_scores[0].criterion_id, "");
    assert!(outcome.output.needs_review);
}

#[test]
fn test_parse_scoring_output_accepts_snake_case_keys_and_criteria_array() {
    let outcome = parse(
        r#"{
          "criteria": [
            {
              "criterion_id": "content_main_idea",
              "criterion_title": "Konuya uygunluk, içerik ve ana düşünce",
              "criterion_max_score": 20.0,
              "awarded_score": 10.0,
              "rationale": "Gerekçe açıklaması.",
              "evidence_quote": "Aras'ı bu ara rahat bırak."
            }
          ],
          "awarded_score": 10.0,
          "confidence": 0.9,
          "rationale": "Genel açıklama."
        }"#,
        20.0,
    );
    assert!(outcome.parse_error.is_none());
    assert_eq!(outcome.output.criterion_scores.len(), 1);
    assert_eq!(outcome.output.criterion_scores[0].criterion_id, "content_main_idea");
    assert_eq!(
        outcome.output.criterion_scores[0].criterion_title,
        "Konuya uygunluk, içerik ve ana düşünce"
    );
    assert_eq!(score(&outcome.output.criterion_scores[0].awarded_score), 10.0);
    assert_eq!(
        outcome.output.criterion_scores[0].evidence_quote.as_deref(),
        Some("Aras'ı bu ara rahat bırak.")
    );
    assert_eq!(score(&outcome.output.awarded_score), 10.0);
}

#[test]
fn test_parse_semantic_scoring_output_extracts_level_evidence_and_rejects_direct_score() {
    let outcome = parse(
        r#"{
          "criterionDecisions": [{
            "criterionId": "c1",
            "levelId": "full",
            "exactEvidence": "Doğru cevap",
            "missingRequirements": [],
            "contradiction": false,
            "rationale": "Kriter karşılandı.",
            "awardedScore": 99
          }],
          "awardedScore": 99,
          "confidence": 0.94,
          "needsReview": false,
          "rationale": "Seviye kanıtla seçildi."
        }"#,
        10.0,
    );
    assert_eq!(outcome.output.criterion_decisions.len(), 1);
    assert_eq!(outcome.output.criterion_decisions[0].level_id, "full");
    assert_eq!(
        outcome.output.criterion_decisions[0].exact_evidence.as_deref(),
        Some("Doğru cevap")
    );
    assert!(outcome.output.direct_score_rejected);
    assert!(outcome
        .output
        .direct_score_fields
        .contains(&"awardedScore".to_string()));
    assert!(outcome.output.needs_review);
}

#[test]
fn scoring_reply_that_is_not_json_fails_to_parse() {
    let outcome = parse("Puan: 7", 10.0);
    assert_eq!(outcome.parse_strategy, "parse_failed");
    assert_eq!(outcome.output.warnings, vec!["scoring_json_parse_failed".to_string()]);
    assert!(outcome.output.needs_review);
    assert!(outcome.parse_error.is_some());
    assert!(outcome.parsed_json.is_none());
    assert!(outcome.salvaged_rationale.is_none());
}

#[test]
fn complete_scoring_reply_needs_no_review() {
    let outcome = parse(
        r#"```json
{"awardedScore":"1.5","confidence":0.7,"needs_review":false,"rationale":"  İyi. ","criterionScores":[{"criterionId":"c1","title":"K","points":2,"score":1.5,"reason":"r","quote":{"text":"alıntı"}}],"warnings":[" w ",""]}
```"#,
        2.0,
    );
    assert_eq!(outcome.parse_error, None);
    assert!(!outcome.output.needs_review);
    assert_eq!(outcome.parse_strategy, "criterion_scores");
    assert_eq!(outcome.output.rationale, "İyi.");
    assert_eq!(outcome.output.teacher_visible_explanation, "İyi.");
    assert_eq!(outcome.salvaged_rationale.as_deref(), Some("İyi."));
    assert_eq!(outcome.output.awarded_score.as_deref(), Some("1.5"));
    assert_eq!(outcome.output.confidence.as_deref(), Some("0.7"));
    assert_eq!(outcome.output.warnings, vec!["w".to_string()]);
    let c = &outcome.output.criterion_scores[0];
    assert_eq!(c.criterion_max_score.as_deref(), Some("2"));
    assert_eq!(c.awarded_score.as_deref(), Some("1.5"));
    assert_eq!(c.rationale, "r");
    assert_eq!(c.evidence_quote.as_deref(), Some("alıntı"));
    assert!(!outcome.output.direct_score_rejected);
    assert_eq!(
        outcome.output.direct_score_fields,
        vec!["awardedScore", "criterion.points", "criterion.score"]
    );
}

#[test]
fn scoring_reply_over_the_maximum_breaks_the_schema() {
    let outcome = parse(
        r#"{"awardedScore":12,"confidence":0.9,"rationale":"r","criterionScores":[]}"#,
        10.0,
    );
    assert_eq!(
        outcome.parse_error.as_deref(),
        Some("Notlandırma toplam puanı geçerli aralıkta değil.")
    );
    assert!(outcome.output.needs_review);
    let outcome = parse(
        r#"{"awardedScore":2,"confidence":1.5,"rationale":"r","criterionScores":[]}"#,
        10.0,
    );
    assert_eq!(
        outcome.parse_error.as_deref(),
        Some("Notlandırma güven değeri 0..1 aralığında değil.")
    );
}

#[test]
fn scoring_schema_errors_name_what_is_wrong() {
    let v = read_json(r#"{"awardedScore":0,"criterionScores":[]}"#).unwrap();
    assert_eq!(
        scoring_schema_error(&v, true, true).as_deref(),
        Some("Notlandırma şeması eksik alan içeriyor: confidence,rationale")
    );
    let v = read_json(r#"[1]"#).unwrap();
    assert_eq!(
        scoring_schema_error(&v, true, true).as_deref(),
        Some("Notlandırma çıktısı JSON nesnesi değil.")
    );
    let v = read_json(r#"{"score":"x","confidence":0.5,"reason":"r","scores":[]}"#).unwrap();
    assert_eq!(
        scoring_schema_error(&v, true, true).as_deref(),
        Some("Notlandırma toplam puanı geçerli aralıkta değil.")
    );
    let v = read_json(r#"{"score":1,"confidence":0.5,"reason":"r","needsReview":"no","scores":[]}"#).unwrap();
    assert_eq!(
        scoring_schema_error(&v, true, true).as_deref(),
        Some("Notlandırma needsReview alanı boolean değil.")
    );
    let v = read_json(r#"{"score":1,"confidence":0.5,"reason":"r","scores":{}}"#).unwrap();
    assert_eq!(
        scoring_schema_error(&v, true, true).as_deref(),
        Some("Notlandırma criterionScores alanı dizi değil.")
    );
    let v = read_json(r#"{"score":1,"confidence":0.5,"reason":"r","scores":[{"criterionId":"a","title":"t","points":1,"reason":"r","quote":"q"},3]}"#).unwrap();
    assert_eq!(
        scoring_schema_error(&v, true, true).as_deref(),
        Some("Notlandırma kriteri 1 JSON nesnesi değil.")
    );
    let v = read_json(r#"{"score":1,"confidence":0.5,"reason":"r","scores":[{"criterionId":"a","title":"t","points":1,"reason":"r"}]}"#).unwrap();
    assert_eq!(
        scoring_schema_error(&v, true, true).as_deref(),
        Some("Notlandırma kriteri 0 eksik alan içeriyor: evidenceQuote")
    );
    let v = read_json(r#"{"confidence":0.5,"criterionDecisions":{}}"#).unwrap();
    assert_eq!(
        semantic_scoring_schema_error(&v, true).as_deref(),
        Some("Semantik notlandırma criterionDecisions alanı dizi değil.")
    );
    assert_eq!(
        semantic_scoring_schema_error(&v, false).as_deref(),
        Some("Semantik notlandırma güven değeri 0..1 aralığında değil.")
    );
}

#[test]
fn direct_score_fields_come_sorted_and_once() {
    let v = read_json(
        r#"{"total_score":1,"score":2,"criteria":[{"score":1,"awarded_score":1},{"score":2}]}"#,
    )
    .unwrap();
    assert_eq!(
        direct_scoring_fields(&v),
        vec!["criterion.awarded_score", "criterion.score", "score", "total_score"]
    );
}

#[test]
fn semantic_decisions_need_ids_and_levels() {
    let outcome = parse(
        r#"{"decisions":[{"criterion_id":"c1","selected_level_id":"part","missing_requirements":[" a ",2,""],"hasContradiction":true,"reason":"x"},{"criterionId":"c2"}],"confidence":0.5,"rationale":"ok"}"#,
        10.0,
    );
    assert_eq!(outcome.parse_strategy, "semantic_criterion_levels");
    assert_eq!(outcome.output.criterion_decisions.len(), 1);
    let d = &outcome.output.criterion_decisions[0];
    assert_eq!(d.level_id, "part");
    assert_eq!(d.exact_evidence, None);
    assert_eq!(d.missing_requirements, vec!["a".to_string(), "2".to_string()]);
    assert!(d.contradiction);
    assert_eq!(d.rationale, "x");
    assert_eq!(outcome.parse_error, None);
    assert!(!outcome.output.direct_score_rejected);
    assert!(!outcome.output.needs_review);
}

#[test]
fn number_literals_follow_the_float_grammar() {
    for ok in ["18", "+1.5", "-.5", "1.", "1e5", "2E-3", "inf", "-Infinity", "NaN"] {
        assert!(is_float_literal(ok), "{ok}");
        assert!(ok.parse::<f64>().is_ok());
    }
    for bad in ["", ".", "e5", "1e", "1.2.3", "x", "1 ", "+-1", "1e+"] {
        assert!(!is_float_literal(bad), "{bad}");
        assert!(bad.parse::<f64>().is_err());
    }
}
