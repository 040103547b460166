//! The uncertainty metadata of a student-answer OCR reply: spans the model
//! could not read for sure, corrections it suggests, critical terms it
//! warns about, and where on the page each of them is.
use vstd::prelude::*;
use crate::json::{
    arr_of, bool_of, deref_opt, get, get_any, json_arr, json_bool, json_get, json_get_any,
    json_optional_string, json_str, json_string_array, json_trimmed_strings, json_u64, keys_view,
    nonempty_trimmed, nonempty_trimmed_str, opt_view, optional_string_field, str_of,
    string_array_field, trimmed_strings, u64_of, views, JsonValue,
};
use crate::model_reply::number_text;
use crate::speaking_reply::{deterministic_reader, read_result, reads_to};
use crate::model_text::{normalize_ocr_warning_code, spec_normalized_warning};
use crate::seqs::{filter_map, lemma_filter_map_step, lemma_take_all};
use crate::errors::{app_error, AppError, AppErrorCode};
use crate::model_text::{
    issue_scope_from_text, scope_allows_text, word_count, StudentAnswerOcrIssueCorrectionScope,
    extract_fenced_json_candidate, extract_first_balanced_json_candidate, find, find_chars,
    first_balanced_from, spec_fenced_json_candidate, spec_strip_reasoning, strip_reasoning_and_fences,
};
use crate::text::{
    char_is_ws, chars_of, insert_sorted, is_ws, lemma_text_lt_irreflexive_total, sort_dedup,
    str_eq, string_from_chars, strictly_sorted, text_lt, trim, trim_str,
};

verus! {

/// A region of a page, in page-relative coordinates as the model wrote
/// them (JSON numbers), and the page's index within the submission.
#[derive(Debug)]
pub struct OcrRegion {
    pub x: String,
    pub y: String,
    pub width: String,
    pub height: String,
    pub page_index: u32,
}

pub struct OcrRegionView {
    pub x: Seq<char>,
    pub y: Seq<char>,
    pub width: Seq<char>,
    pub height: Seq<char>,
    pub page_index: u32,
}

impl View for OcrRegion {
    type V = OcrRegionView;

    open spec fn view(&self) -> OcrRegionView {
        OcrRegionView {
            x: self.x@,
            y: self.y@,
            width: self.width@,
            height: self.height@,
            page_index: self.page_index,
        }
    }
}

pub open spec fn region_view(r: Option<OcrRegion>) -> Option<OcrRegionView> {
    match r {
        Some(b) => Some(b@),
        None => None,
    }
}

/// A span of the answer the model could not read for sure.
#[derive(Debug)]
pub struct OcrUncertainSpan {
    pub text: String,
    pub start: Option<usize>,
    pub end: Option<usize>,
    pub alternatives: Vec<String>,
    pub confidence: Option<String>,
    pub reason: String,
    pub highlight_region: Option<OcrRegion>,
}

pub struct OcrUncertainSpanView {
    pub text: Seq<char>,
    pub start: Option<usize>,
    pub end: Option<usize>,
    pub alternatives: Seq<Seq<char>>,
    pub confidence: Option<Seq<char>>,
    pub reason: Seq<char>,
    pub highlight_region: Option<OcrRegionView>,
}

impl View for OcrUncertainSpan {
    type V = OcrUncertainSpanView;

    open spec fn view(&self) -> OcrUncertainSpanView {
        OcrUncertainSpanView {
            text: self.text@,
            start: self.start,
            end: self.end,
            alternatives: views(self.alternatives@),
            confidence: opt_view(self.confidence),
            reason: self.reason@,
            highlight_region: region_view(self.highlight_region),
        }
    }
}

/// A correction the model suggests; it is never applied by itself.
#[derive(Debug)]
pub struct OcrSuggestedCorrection {
    pub original_text: String,
    pub suggested_text: String,
    pub reason: String,
    pub confidence: Option<String>,
    pub applied: bool,
    pub highlight_region: Option<OcrRegion>,
}

pub struct OcrSuggestedCorrectionView {
    pub original_text: Seq<char>,
    pub suggested_text: Seq<char>,
    pub reason: Seq<char>,
    pub confidence: Option<Seq<char>>,
    pub applied: bool,
    pub highlight_region: Option<OcrRegionView>,
}

impl View for OcrSuggestedCorrection {
    type V = OcrSuggestedCorrectionView;

    open spec fn view(&self) -> OcrSuggestedCorrectionView {
        OcrSuggestedCorrectionView {
            original_text: self.original_text@,
            suggested_text: self.suggested_text@,
            reason: self.reason@,
            confidence: opt_view(self.confidence),
            applied: self.applied,
            highlight_region: region_view(self.highlight_region),
        }
    }
}

/// A term the model read that may stand for a critical term of the answer.
#[derive(Debug)]
pub struct OcrCriticalTermWarning {
    pub observed_text: String,
    pub expected_or_related_term: String,
    pub reason: String,
    pub warning_code: String,
    pub highlight_region: Option<OcrRegion>,
}

pub struct OcrCriticalTermWarningView {
    pub observed_text: Seq<char>,
    pub expected_or_related_term: Seq<char>,
    pub reason: Seq<char>,
    pub warning_code: Seq<char>,
    pub highlight_region: Option<OcrRegionView>,
}

impl View for OcrCriticalTermWarning {
    type V = OcrCriticalTermWarningView;

    open spec fn view(&self) -> OcrCriticalTermWarningView {
        OcrCriticalTermWarningView {
            observed_text: self.observed_text@,
            expected_or_related_term: self.expected_or_related_term@,
            reason: self.reason@,
            warning_code: self.warning_code@,
            highlight_region: region_view(self.highlight_region),
        }
    }
}

// ---------------------------------------------------------------------------
// What each field is, read off a JSON value
// ---------------------------------------------------------------------------
/// The first present of two optional strings.
pub open spec fn or_else(a: Option<Seq<char>>, b: Option<Seq<char>>) -> Option<Seq<char>> {
    match a {
        Some(x) => Some(x),
        None => b,
    }
}

pub open spec fn or_default(a: Option<Seq<char>>, d: Seq<char>) -> Seq<char> {
    match a {
        Some(x) => x,
        None => d,
    }
}

pub open spec fn is_num(o: Option<JsonValue>) -> bool {
    o matches Some(JsonValue::Num(_))
}

pub open spec fn region_keys() -> Seq<Seq<char>> {
    seq!["highlightRegion"@, "highlight_region"@, "bbox"@, "normalizedBBox"@, "normalized_bbox"@]
}

pub open spec fn page_index_keys() -> Seq<Seq<char>> {
    seq!["pageIndex"@, "pageIndexWithinSubmission"@, "page_index_within_submission"@, "page_index"@]
}

/// The highlight region of an item: an object under one of its spellings
/// with numbers `x`, `y`, `width`, `height` and an integer page index
/// (taken modulo 2^32).
pub open spec fn spec_region(item: JsonValue) -> Option<OcrRegionView> {
    match get_any(item, region_keys()) {
        Some(r) => match r {
            JsonValue::Obj(_) => if is_num(get(r, "x"@)) && is_num(get(r, "y"@)) && is_num(
                get(r, "width"@),
            ) && is_num(get(r, "height"@)) && u64_of(get_any(r, page_index_keys())) is Some {
                Some(
                    OcrRegionView {
                        x: number_text(r, "x"@).unwrap(),
                        y: number_text(r, "y"@).unwrap(),
                        width: number_text(r, "width"@).unwrap(),
                        height: number_text(r, "height"@).unwrap(),
                        page_index: u64_of(get_any(r, page_index_keys())).unwrap() as u32,
                    },
                )
            } else {
                None
            },
            _ => None,
        },
        None => None,
    }
}

pub open spec fn index_of(item: JsonValue, keys: Seq<Seq<char>>) -> Option<usize> {
    match u64_of(get_any(item, keys)) {
        Some(n) => Some(n as usize),
        None => None,
    }
}

pub open spec fn string_list_any(item: JsonValue, keys: Seq<Seq<char>>) -> Seq<Seq<char>> {
    match arr_of(get_any(item, keys)) {
        Some(items) => trimmed_strings(items),
        None => Seq::empty(),
    }
}

/// One uncertain span: an object with a non-blank `text` (or `value`).
pub open spec fn spec_uncertain_span(item: JsonValue) -> Option<OcrUncertainSpanView> {
    let text = or_else(optional_string_field(item, "text"@), optional_string_field(item, "value"@));
    match item {
        JsonValue::Obj(_) => match text {
            Some(t) => Some(
                OcrUncertainSpanView {
                    text: t,
                    start: index_of(item, seq!["start"@, "startIndex"@, "start_index"@]),
                    end: index_of(item, seq!["end"@, "endIndex"@, "end_index"@]),
                    alternatives: string_list_any(
                        item,
                        seq!["alternatives"@, "alternativeTexts"@, "alternative_texts"@],
                    ),
                    confidence: number_text(item, "confidence"@),
                    reason: or_default(
                        or_else(
                            optional_string_field(item, "reason"@),
                            optional_string_field(item, "explanation"@),
                        ),
                        "critical_term_uncertain"@,
                    ),
                    highlight_region: spec_region(item),
                },
            ),
            None => None,
        },
        _ => None,
    }
}

/// One suggested correction: an object with a non-blank original and
/// suggested text.
pub open spec fn spec_suggested_correction(item: JsonValue) -> Option<OcrSuggestedCorrectionView> {
    let original = or_else(
        optional_string_field(item, "originalText"@),
        optional_string_field(item, "original_text"@),
    );
    let suggested = or_else(
        optional_string_field(item, "suggestedText"@),
        optional_string_field(item, "suggested_text"@),
    );
    match item {
        JsonValue::Obj(_) => match (original, suggested) {
            (Some(o), Some(s)) => Some(
                OcrSuggestedCorrectionView {
                    original_text: o,
                    suggested_text: s,
                    reason: or_default(
                        or_else(
                            optional_string_field(item, "reason"@),
                            optional_string_field(item, "explanation"@),
                        ),
                        "critical_term_suggestion"@,
                    ),
                    confidence: number_text(item, "confidence"@),
                    applied: bool_of(get(item, "applied"@)) == Some(true),
                    highlight_region: spec_region(item),
                },
            ),
            _ => None,
        },
        _ => None,
    }
}

/// One critical-term warning: an object with a non-blank observed text and
/// expected (or related) term; its warning code normalised.
pub open spec fn spec_critical_term_warning(item: JsonValue) -> Option<OcrCriticalTermWarningView> {
    let observed = or_else(
        optional_string_field(item, "observedText"@),
        optional_string_field(item, "observed_text"@),
    );
    let expected = or_else(
        or_else(
            optional_string_field(item, "expectedOrRelatedTerm"@),
            optional_string_field(item, "expected_or_related_term"@),
        ),
        optional_string_field(item, "expectedTerm"@),
    );
    let code = or_else(
        optional_string_field(item, "warningCode"@),
        optional_string_field(item, "warning_code"@),
    );
    match item {
        JsonValue::Obj(_) => match (observed, expected) {
            (Some(o), Some(e)) => Some(
                OcrCriticalTermWarningView {
                    observed_text: o,
                    expected_or_related_term: e,
                    reason: or_default(
                        or_else(
                            optional_string_field(item, "reason"@),
                            optional_string_field(item, "explanation"@),
                        ),
                        "critical_term_uncertain"@,
                    ),
                    warning_code: match code {
                        Some(c) => spec_normalized_warning(c),
                        None => "critical_keyword_ocr_uncertain"@,
                    },
                    highlight_region: spec_region(item),
                },
            ),
            _ => None,
        },
        _ => None,
    }
}

/// The list under the first of `keys`, or none.
pub open spec fn list_any(v: JsonValue, keys: Seq<Seq<char>>) -> Seq<JsonValue> {
    match arr_of(get_any(v, keys)) {
        Some(items) => items,
        None => Seq::empty(),
    }
}

pub open spec fn spec_uncertain_spans(v: JsonValue) -> Seq<OcrUncertainSpanView> {
    filter_map(
        list_any(v, seq!["uncertainSpans"@, "uncertain_spans"@]),
        |item: JsonValue| spec_uncertain_span(item),
    )
}

pub open spec fn spec_suggested_corrections(v: JsonValue) -> Seq<OcrSuggestedCorrectionView> {
    filter_map(
        list_any(v, seq!["suggestedCorrections"@, "suggested_corrections"@]),
        |item: JsonValue| spec_suggested_correction(item),
    )
}

pub open spec fn spec_critical_term_warnings(v: JsonValue) -> Seq<OcrCriticalTermWarningView> {
    filter_map(
        list_any(v, seq!["criticalTermWarnings"@, "critical_term_warnings"@]),
        |item: JsonValue| spec_critical_term_warning(item),
    )
}

// ---------------------------------------------------------------------------
// Reading them
// ---------------------------------------------------------------------------
fn number_text_at(v: Option<&JsonValue>) -> (r: Option<String>)
    ensures
        match v {
            Some(x) => opt_view(r) == match *x {
                JsonValue::Num(n) => Some(n.text@),
                _ => None,
            },
            None => r is None,
        },
{
    match v {
        Some(JsonValue::Num(n)) => Some(n.text.clone()),
        _ => None,
    }
}

fn field_number_text(v: &JsonValue, field: &str) -> (r: Option<String>)
    ensures
        opt_view(r) == number_text(*v, field@),
{
    number_text_at(json_get(v, field))
}

fn first_string(v: &JsonValue, a: &str, b: &str) -> (r: Option<String>)
    ensures
        opt_view(r) == or_else(optional_string_field(*v, a@), optional_string_field(*v, b@)),
{
    match json_optional_string(v, a) {
        Some(s) => Some(s),
        None => json_optional_string(v, b),
    }
}

fn string_or(v: Option<String>, d: &str) -> (r: String)
    ensures
        r@ == or_default(opt_view(v), d@),
{
    match v {
        Some(s) => s,
        None => d.to_string(),
    }
}

/// The highlight region of an item, where it has one.
pub fn highlight_region_field(item: &JsonValue) -> (r: Option<OcrRegion>)
    ensures
        region_view(r) == spec_region(*item),
{
    let rkeys = ["highlightRegion", "highlight_region", "bbox", "normalizedBBox", "normalized_bbox"];
    let pkeys = ["pageIndex", "pageIndexWithinSubmission", "page_index_within_submission", "page_index"];
    assert(keys_view(rkeys@) == region_keys());
    assert(keys_view(pkeys@) == page_index_keys());
    let r = match json_get_any(item, &rkeys) {
        Some(r) => r,
        None => {
            return None;
        },
    };
    match r {
        JsonValue::Obj(_) => {},
        _ => {
            return None;
        },
    }
    let x = field_number_text(r, "x");
    let y = field_number_text(r, "y");
    let width = field_number_text(r, "width");
    let height = field_number_text(r, "height");
    let page = json_u64(json_get_any(r, &pkeys));
    match (x, y, width, height, page) {
        (Some(x), Some(y), Some(width), Some(height), Some(p)) => {
            Some(OcrRegion { x, y, width, height, page_index: p as u32 })
        },
        _ => None,
    }
}

fn index_field(item: &JsonValue, keys: &[&str]) -> (r: Option<usize>)
    ensures
        r == index_of(*item, keys_view(keys@)),
{
    match json_u64(json_get_any(item, keys)) {
        Some(n) => Some(n as usize),
        None => None,
    }
}

fn string_list_field(item: &JsonValue, keys: &[&str]) -> (r: Vec<String>)
    ensures
        views(r@) == string_list_any(*item, keys_view(keys@)),
{
    match json_arr(json_get_any(item, keys)) {
        Some(items) => json_trimmed_strings(items),
        None => {
            let r: Vec<String> = Vec::new();
            assert(views(r@) =~= Seq::<Seq<char>>::empty());
            r
        },
    }
}

fn uncertain_span(item: &JsonValue) -> (r: Option<OcrUncertainSpan>)
    ensures
        match r {
            Some(s) => spec_uncertain_span(*item) == Some(s@),
            None => spec_uncertain_span(*item) is None,
        },
{
    match item {
        JsonValue::Obj(_) => {},
        _ => {
            return None;
        },
    }
    let text = match first_string(item, "text", "value") {
        Some(t) => t,
        None => {
            return None;
        },
    };
    let skeys = ["start", "startIndex", "start_index"];
    let ekeys = ["end", "endIndex", "end_index"];
    let akeys = ["alternatives", "alternativeTexts", "alternative_texts"];
    assert(keys_view(skeys@) == seq!["start"@, "startIndex"@, "start_index"@]);
    assert(keys_view(ekeys@) == seq!["end"@, "endIndex"@, "end_index"@]);
    assert(keys_view(akeys@) == seq!["alternatives"@, "alternativeTexts"@, "alternative_texts"@]);
    let span = OcrUncertainSpan {
        text,
        start: index_field(item, &skeys),
        end: index_field(item, &ekeys),
        alternatives: string_list_field(item, &akeys),
        confidence: field_number_text(item, "confidence"),
        reason: string_or(first_string(item, "reason", "explanation"), "critical_term_uncertain"),
        highlight_region: highlight_region_field(item),
    };
    Some(span)
}

fn suggested_correction(item: &JsonValue) -> (r: Option<OcrSuggestedCorrection>)
    ensures
        match r {
            Some(s) => spec_suggested_correction(*item) == Some(s@),
            None => spec_suggested_correction(*item) is None,
        },
{
    match item {
        JsonValue::Obj(_) => {},
        _ => {
            return None;
        },
    }
    let original = first_string(item, "originalText", "original_text");
    let suggested = first_string(item, "suggestedText", "suggested_text");
    match (original, suggested) {
        (Some(original_text), Some(suggested_text)) => {
            let applied = match json_bool(json_get(item, "applied")) {
                Some(b) => b,
                None => false,
            };
            Some(
                OcrSuggestedCorrection {
                    original_text,
                    suggested_text,
                    reason: string_or(
                        first_string(item, "reason", "explanation"),
                        "critical_term_suggestion",
                    ),
                    confidence: field_number_text(item, "confidence"),
                    applied,
                    highlight_region: highlight_region_field(item),
                },
            )
        },
        _ => None,
    }
}

fn critical_term_warning(item: &JsonValue) -> (r: Option<OcrCriticalTermWarning>)
    ensures
        match r {
            Some(s) => spec_critical_term_warning(*item) == Some(s@),
            None => spec_critical_term_warning(*item) is None,
        },
{
    match item {
        JsonValue::Obj(_) => {},
        _ => {
            return None;
        },
    }
    let observed = first_string(item, "observedText", "observed_text");
    let expected = match first_string(item, "expectedOrRelatedTerm", "expected_or_related_term") {
        Some(e) => Some(e),
        None => json_optional_string(item, "expectedTerm"),
    };
    match (observed, expected) {
        (Some(observed_text), Some(expected_or_related_term)) => {
            let warning_code = match first_string(item, "warningCode", "warning_code") {
                Some(c) => normalize_ocr_warning_code(c.as_str()),
                None => "critical_keyword_ocr_uncertain".to_string(),
            };
            Some(
                OcrCriticalTermWarning {
                    observed_text,
                    expected_or_related_term,
                    reason: string_or(
                        first_string(item, "reason", "explanation"),
                        "critical_term_uncertain",
                    ),
                    warning_code,
                    highlight_region: highlight_region_field(item),
                },
            )
        },
        _ => None,
    }
}

fn list_field<'a>(v: &'a JsonValue, a: &str, b: &str) -> (r: Option<&'a Vec<JsonValue>>)
    ensures
        match r {
            Some(items) => list_any(*v, seq![a@, b@]) == items@,
            None => list_any(*v, seq![a@, b@]) == Seq::<JsonValue>::empty(),
        },
{
    let keys = [a, b];
    assert(keys_view(keys@) == seq![a@, b@]);
    json_arr(json_get_any(v, &keys))
}

/// The uncertain spans of an OCR reply.
pub fn uncertain_spans_field(v: &JsonValue) -> (r: Vec<OcrUncertainSpan>)
    ensures
        r@.map_values(|s: OcrUncertainSpan| s@) == spec_uncertain_spans(*v),
{
    let ghost f = |item: JsonValue| spec_uncertain_span(item);
    let mut r: Vec<OcrUncertainSpan> = Vec::new();
    let items = match list_field(v, "uncertainSpans", "uncertain_spans") {
        Some(items) => items,
        None => {
            assert(r@.map_values(|s: OcrUncertainSpan| s@) =~= Seq::<OcrUncertainSpanView>::empty());
            return r;
        },
    };
    let mut i: usize = 0;
    while i < items.len()
        invariant
            i <= items@.len(),
            f == (|item: JsonValue| spec_uncertain_span(item)),
            r@.map_values(|s: OcrUncertainSpan| s@) == filter_map(items@.take(i as int), f),
        decreases items@.len() - i,
    {
        proof {
            lemma_filter_map_step(items@, f, i as int);
        }
        let ghost before = r@.map_values(|s: OcrUncertainSpan| s@);
        match uncertain_span(&items[i]) {
            Some(s) => {
                r.push(s);
                assert(r@.map_values(|s: OcrUncertainSpan| s@) =~= before.push(s@));
            },
            None => {},
        }
        i = i + 1;
    }
    proof {
        lemma_take_all(items@);
    }
    r
}

/// The suggested corrections of an OCR reply.
pub fn suggested_corrections_field(v: &JsonValue) -> (r: Vec<OcrSuggestedCorrection>)
    ensures
        r@.map_values(|s: OcrSuggestedCorrection| s@) == spec_suggested_corrections(*v),
{
    let ghost f = |item: JsonValue| spec_suggested_correction(item);
    let mut r: Vec<OcrSuggestedCorrection> = Vec::new();
    let items = match list_field(v, "suggestedCorrections", "suggested_corrections") {
        Some(items) => items,
        None => {
            assert(r@.map_values(|s: OcrSuggestedCorrection| s@)
                =~= Seq::<OcrSuggestedCorrectionView>::empty());
            return r;
        },
    };
    let mut i: usize = 0;
    while i < items.len()
        invariant
            i <= items@.len(),
            f == (|item: JsonValue| spec_suggested_correction(item)),
            r@.map_values(|s: OcrSuggestedCorrection| s@) == filter_map(items@.take(i as int), f),
        decreases items@.len() - i,
    {
        proof {
            lemma_filter_map_step(items@, f, i as int);
        }
        let ghost before = r@.map_values(|s: OcrSuggestedCorrection| s@);
        match suggested_correction(&items[i]) {
            Some(s) => {
                r.push(s);
                assert(r@.map_values(|s: OcrSuggestedCorrection| s@) =~= before.push(s@));
            },
            None => {},
        }
        i = i + 1;
    }
    proof {
        lemma_take_all(items@);
    }
    r
}

/// The critical-term warnings of an OCR reply.
pub fn critical_term_warnings_field(v: &JsonValue) -> (r: Vec<OcrCriticalTermWarning>)
    ensures
        r@.map_values(|s: OcrCriticalTermWarning| s@) == spec_critical_term_warnings(*v),
{
    let ghost f = |item: JsonValue| spec_critical_term_warning(item);
    let mut r: Vec<OcrCriticalTermWarning> = Vec::new();
    let items = match list_field(v, "criticalTermWarnings", "critical_term_warnings") {
        Some(items) => items,
        None => {
            assert(r@.map_values(|s: OcrCriticalTermWarning| s@)
                =~= Seq::<OcrCriticalTermWarningView>::empty());
            return r;
        },
    };
    let mut i: usize = 0;
    while i < items.len()
        invariant
            i <= items@.len(),
            f == (|item: JsonValue| spec_critical_term_warning(item)),
            r@.map_values(|s: OcrCriticalTermWarning| s@) == filter_map(items@.take(i as int), f),
        decreases items@.len() - i,
    {
        proof {
            lemma_filter_map_step(items@, f, i as int);
        }
        let ghost before = r@.map_values(|s: OcrCriticalTermWarning| s@);
        match critical_term_warning(&items[i]) {
            Some(s) => {
                r.push(s);
                assert(r@.map_values(|s: OcrCriticalTermWarning| s@) =~= before.push(s@));
            },
            None => {},
        }
        i = i + 1;
    }
    proof {
        lemma_take_all(items@);
    }
    r
}


// ---------------------------------------------------------------------------
// When an OCR answer goes to review
// ---------------------------------------------------------------------------
/// What the reader found out about an answer besides its JSON: whether its
/// structured answer failed to parse, whether it repeats the printed
/// question, is blank, has an unreadable span or commentary, whether the
/// reply had to be salvaged, and whether its confidence is under the
/// review threshold.
#[derive(Debug, Clone, Copy)]
pub struct OcrReviewFacts {
    pub structured_answer_invalid: bool,
    pub printed_question_leak_detected: bool,
    pub answer_blank: bool,
    pub unreadable_span: bool,
    pub commentary_detected: bool,
    pub parse_failed: bool,
    pub low_confidence: bool,
}

/// The review metadata of an OCR answer.
#[derive(Debug)]
pub struct OcrReview {
    pub uncertain_spans: Vec<OcrUncertainSpan>,
    pub suggested_corrections: Vec<OcrSuggestedCorrection>,
    pub critical_term_warnings: Vec<OcrCriticalTermWarning>,
    pub ocr_semantic_warnings: Vec<String>,
    pub critical_keyword_uncertain: bool,
    pub needs_review: bool,
    pub review_reasons: Vec<String>,
    pub warnings: Vec<String>,
}

pub open spec fn has_any(v: JsonValue, keys: Seq<Seq<char>>) -> bool {
    get_any(v, keys) is Some
}

pub open spec fn answer_keys() -> Seq<Seq<char>> {
    seq!["answerText"@, "answer_text"@, "text"@, "answer"@]
}

pub open spec fn scoring_keys() -> Seq<Seq<char>> {
    seq!["score"@, "points"@, "criteria"@, "awardedScore"@, "criterionScores"@]
}

/// The reply lacks the answer, its confidence or its review flag.
pub open spec fn schema_incomplete(v: JsonValue) -> bool {
    !has_any(v, answer_keys()) || !has_any(v, seq!["confidence"@]) || !has_any(
        v,
        seq!["needsReview"@, "needs_review"@],
    )
}

/// The reply carries scores, which an OCR reply must not.
pub open spec fn scoring_fields_present(v: JsonValue) -> bool {
    has_any(v, scoring_keys())
}

pub open spec fn normalized_all(s: Seq<Seq<char>>) -> Seq<Seq<char>> {
    s.map_values(|w: Seq<char>| spec_normalized_warning(w))
}

/// The semantic warnings the model listed, normalised (the camel-case list,
/// or the snake-case one where that is empty).
pub open spec fn listed_semantic_warnings(v: JsonValue) -> Seq<Seq<char>> {
    let camel = normalized_all(string_array_field(v, "ocrSemanticWarnings"@));
    if camel.len() > 0 {
        camel
    } else {
        normalized_all(string_array_field(v, "ocr_semantic_warnings"@))
    }
}

/// A critical keyword may be misread: the model says so, or it reported an
/// uncertain span, a suggested correction, a critical-term warning or a
/// semantic warning.
pub open spec fn spec_critical_keyword_uncertain(v: JsonValue) -> bool {
    bool_of(get_any(v, seq!["criticalKeywordUncertain"@, "critical_keyword_uncertain"@])) == Some(true)
        || spec_uncertain_spans(v).len() > 0 || spec_suggested_corrections(v).len() > 0
        || spec_critical_term_warnings(v).len() > 0 || listed_semantic_warnings(v).len() > 0
}

pub open spec fn when(c: bool, code: Seq<char>) -> Set<Seq<char>> {
    if c {
        set![code]
    } else {
        Set::empty()
    }
}

/// The reasons for review: those the model gave, and one for each finding.
pub open spec fn spec_review_reasons(v: JsonValue, f: OcrReviewFacts) -> Set<Seq<char>> {
    string_list_any(v, seq!["reviewReasons"@, "review_reasons"@]).to_set()
        + when(scoring_fields_present(v), "ocr_scoring_fields_present"@)
        + when(schema_incomplete(v), "ocr_schema_incomplete"@)
        + when(f.structured_answer_invalid, "structured_answer_invalid"@)
        + when(f.printed_question_leak_detected, "printed_question_leak_detected"@)
        + when(f.answer_blank, "ocr_answer_empty"@)
        + when(f.unreadable_span, "ocr_unreadable_span"@)
        + when(f.commentary_detected, "ocr_commentary_detected"@)
        + when(spec_critical_keyword_uncertain(v), "critical_keyword_uncertain"@)
        + when(f.parse_failed, "parse_failed"@)
        + when(f.low_confidence, "ocr_low_confidence"@)
}

/// The warnings: those the model gave (normalised), and one for each
/// finding.
pub open spec fn spec_review_warnings(v: JsonValue, f: OcrReviewFacts) -> Set<Seq<char>> {
    normalized_all(string_array_field(v, "warnings"@)).to_set()
        + when(scoring_fields_present(v), "ocr_scoring_fields_ignored"@)
        + when(schema_incomplete(v), "ocr_schema_incomplete"@)
        + when(f.structured_answer_invalid, "structured_answer_invalid"@)
        + when(f.printed_question_leak_detected, "printed_question_leak_detected"@)
        + when(f.answer_blank, "ocr_answer_empty"@)
        + when(f.unreadable_span, "ocr_unreadable_span"@)
        + when(f.commentary_detected, "ocr_commentary_detected"@)
        + when(spec_critical_keyword_uncertain(v), "critical_keyword_ocr_uncertain"@)
        + when(f.parse_failed, "ocr_parse_failed"@)
        + when(f.low_confidence, "ocr_low_confidence"@)
}

/// The answer goes to review where the model asked for it or any finding
/// holds.
pub open spec fn spec_needs_review(v: JsonValue, f: OcrReviewFacts) -> bool {
    bool_of(get_any(v, seq!["needsReview"@, "needs_review"@])) == Some(true) || scoring_fields_present(v)
        || schema_incomplete(v) || f.structured_answer_invalid || f.printed_question_leak_detected
        || f.answer_blank || f.unreadable_span || f.commentary_detected
        || spec_critical_keyword_uncertain(v) || f.parse_failed || f.low_confidence
}

/// The semantic warnings: those listed, or the uncertain-critical-keyword
/// warning where none is listed and a keyword may be misread.
pub open spec fn spec_semantic_warnings(v: JsonValue) -> Seq<Seq<char>> {
    if listed_semantic_warnings(v).len() == 0 && spec_critical_keyword_uncertain(v) {
        seq!["critical_keyword_ocr_uncertain"@]
    } else {
        listed_semantic_warnings(v)
    }
}

pub(crate) fn has_key_any(v: &JsonValue, keys: &[&str]) -> (r: bool)
    ensures
        r == has_any(*v, keys_view(keys@)),
{
    json_get_any(v, keys).is_some()
}

fn normalize_each(s: Vec<String>) -> (r: Vec<String>)
    ensures
        views(r@) == normalized_all(views(s@)),
{
    let mut r: Vec<String> = Vec::new();
    let mut i: usize = 0;
    while i < s.len()
        invariant
            i <= s@.len(),
            views(r@) == normalized_all(views(s@)).take(i as int),
        decreases s@.len() - i,
    {
        let ghost before = views(r@);
        r.push(normalize_ocr_warning_code(s[i].as_str()));
        assert(views(r@) =~= before.push(spec_normalized_warning(s@[i as int]@)));
        assert(normalized_all(views(s@)).take(i + 1) =~= normalized_all(views(s@)).take(i as int).push(
            spec_normalized_warning(s@[i as int]@),
        ));
        i = i + 1;
    }
    assert(normalized_all(views(s@)).take(s@.len() as int) =~= normalized_all(views(s@)));
    r
}

fn push_when(v: &mut Vec<String>, c: bool, code: &str)
    ensures
        views(final(v)@).to_set() == views(old(v)@).to_set() + when(c, code@),
{
    if c {
        let ghost before = views(v@);
        v.push(code.to_string());
        assert(views(v@) =~= before.push(code@));
        proof {
            before.lemma_push_to_set_commute(code@);
        }
        assert(before.to_set().insert(code@) =~= before.to_set() + set![code@]);
    } else {
        assert(views(v@).to_set() =~= views(v@).to_set() + Set::<Seq<char>>::empty());
    }
}

/// `o` is the review metadata of the reply `v` given the findings: its
/// spans, corrections, critical-term and semantic warnings, its review
/// decision, and its reasons and warnings, sorted and each once.
pub open spec fn is_review_of(v: JsonValue, facts: OcrReviewFacts, o: OcrReview) -> bool {
    &&& o.uncertain_spans@.map_values(|s: OcrUncertainSpan| s@) == spec_uncertain_spans(v)
    &&& o.suggested_corrections@.map_values(|s: OcrSuggestedCorrection| s@) == spec_suggested_corrections(v)
    &&& o.critical_term_warnings@.map_values(|s: OcrCriticalTermWarning| s@) == spec_critical_term_warnings(v)
    &&& views(o.ocr_semantic_warnings@) == spec_semantic_warnings(v)
    &&& o.critical_keyword_uncertain == spec_critical_keyword_uncertain(v)
    &&& o.needs_review == spec_needs_review(v, facts)
    &&& strictly_sorted(views(o.review_reasons@))
    &&& views(o.review_reasons@).to_set() == spec_review_reasons(v, facts)
    &&& strictly_sorted(views(o.warnings@))
    &&& views(o.warnings@).to_set() == spec_review_warnings(v, facts)
}

/// The review metadata of an OCR reply that is a JSON object; nothing where
/// it is not one. Reasons and warnings come sorted, each once.
pub fn ocr_review(v: &JsonValue, facts: OcrReviewFacts) -> (r: Option<OcrReview>)
    ensures
        match *v {
            JsonValue::Obj(_) => r matches Some(o) && is_review_of(*v, facts, o),
            _ => r is None,
        },
{
    match v {
        JsonValue::Obj(_) => {},
        _ => {
            return None;
        },
    }
    let akeys = ["answerText", "answer_text", "text", "answer"];
    let ckeys = ["confidence"];
    let rkeys = ["needsReview", "needs_review"];
    let skeys = ["score", "points", "criteria", "awardedScore", "criterionScores"];
    let kkeys = ["criticalKeywordUncertain", "critical_keyword_uncertain"];
    let reason_keys = ["reviewReasons", "review_reasons"];
    assert(keys_view(akeys@) == answer_keys());
    assert(keys_view(ckeys@) == seq!["confidence"@]);
    assert(keys_view(rkeys@) == seq!["needsReview"@, "needs_review"@]);
    assert(keys_view(skeys@) == scoring_keys());
    assert(keys_view(kkeys@) == seq!["criticalKeywordUncertain"@, "critical_keyword_uncertain"@]);
    assert(keys_view(reason_keys@) == seq!["reviewReasons"@, "review_reasons"@]);
    let incomplete = !has_key_any(v, &akeys) || !has_key_any(v, &ckeys) || !has_key_any(v, &rkeys);
    let scoring = has_key_any(v, &skeys);
    let flagged = match json_bool(json_get_any(v, &rkeys)) {
        Some(b) => b,
        None => false,
    };
    let uncertain_spans = uncertain_spans_field(v);
    let suggested_corrections = suggested_corrections_field(v);
    let critical_term_warnings = critical_term_warnings_field(v);
    let camel = normalize_each(json_string_array(v, "ocrSemanticWarnings"));
    let mut ocr_semantic_warnings = if camel.len() > 0 {
        camel
    } else {
        normalize_each(json_string_array(v, "ocr_semantic_warnings"))
    };
    let listed_empty = ocr_semantic_warnings.len() == 0;
    let said = match json_bool(json_get_any(v, &kkeys)) {
        Some(b) => b,
        None => false,
    };
    let critical = said || uncertain_spans.len() > 0 || suggested_corrections.len() > 0
        || critical_term_warnings.len() > 0 || !listed_empty;
    assert(critical == spec_critical_keyword_uncertain(*v));
    if critical && listed_empty {
        ocr_semantic_warnings.push("critical_keyword_ocr_uncertain".to_string());
        assert(views(ocr_semantic_warnings@) =~= seq!["critical_keyword_ocr_uncertain"@]);
    }
    let mut reasons = string_list_field(v, &reason_keys);
    let mut warnings = normalize_each(json_string_array(v, "warnings"));
    push_when(&mut reasons, scoring, "ocr_scoring_fields_present");
    push_when(&mut warnings, scoring, "ocr_scoring_fields_ignored");
    push_when(&mut reasons, incomplete, "ocr_schema_incomplete");
    push_when(&mut warnings, incomplete, "ocr_schema_incomplete");
    push_when(&mut reasons, facts.structured_answer_invalid, "structured_answer_invalid");
    push_when(&mut warnings, facts.structured_answer_invalid, "structured_answer_invalid");
    push_when(&mut reasons, facts.printed_question_leak_detected, "printed_question_leak_detected");
    push_when(&mut warnings, facts.printed_question_leak_detected, "printed_question_leak_detected");
    push_when(&mut reasons, facts.answer_blank, "ocr_answer_empty");
    push_when(&mut warnings, facts.answer_blank, "ocr_answer_empty");
    push_when(&mut reasons, facts.unreadable_span, "ocr_unreadable_span");
    push_when(&mut warnings, facts.unreadable_span, "ocr_unreadable_span");
    push_when(&mut reasons, facts.commentary_detected, "ocr_commentary_detected");
    push_when(&mut warnings, facts.commentary_detected, "ocr_commentary_detected");
    push_when(&mut reasons, critical, "critical_keyword_uncertain");
    push_when(&mut warnings, critical, "critical_keyword_ocr_uncertain");
    push_when(&mut reasons, facts.parse_failed, "parse_failed");
    push_when(&mut warnings, facts.parse_failed, "ocr_parse_failed");
    push_when(&mut reasons, facts.low_confidence, "ocr_low_confidence");
    push_when(&mut warnings, facts.low_confidence, "ocr_low_confidence");
    let needs_review = flagged || scoring || incomplete || facts.structured_answer_invalid
        || facts.printed_question_leak_detected || facts.answer_blank || facts.unreadable_span
        || facts.commentary_detected || critical || facts.parse_failed || facts.low_confidence;
    let review_reasons = sort_dedup(reasons);
    let warnings = sort_dedup(warnings);
    Some(
        OcrReview {
            uncertain_spans,
            suggested_corrections,
            critical_term_warnings,
            ocr_semantic_warnings,
            critical_keyword_uncertain: critical,
            needs_review,
            review_reasons,
            warnings,
        },
    )
}

// ---------------------------------------------------------------------------
// An answer that repeats the printed question
// ---------------------------------------------------------------------------
/// The white-space separated words of `s` (`str::split_whitespace`).
pub open spec fn words(s: Seq<char>) -> Seq<Seq<char>>
    decreases s.len(),
{
    if s.len() == 0 {
        Seq::empty()
    } else {
        let r = words(s.drop_last());
        let c = s.last();
        if is_ws(c) {
            r
        } else if s.len() >= 2 && !is_ws(s[s.len() - 2]) {
            r.drop_last().push(r.last().push(c))
        } else {
            r.push(seq![c])
        }
    }
}

/// `s` contains `pat`.
pub open spec fn contains(s: Seq<char>, pat: Seq<char>) -> bool {
    find(s, pat) >= 0
}

/// Whether the answer repeats the printed question, both given as
/// normalised text: neither is empty, and they are equal, one contains the
/// other, or at least three quarters of the larger of their word sets is
/// shared.
pub open spec fn spec_printed_question_leak(answer: Seq<char>, question: Seq<char>) -> bool {
    if answer.len() == 0 || question.len() == 0 {
        false
    } else if answer == question || contains(answer, question) || contains(question, answer) {
        true
    } else {
        let a = words(answer).to_set();
        let q = words(question).to_set();
        if a.len() == 0 || q.len() == 0 {
            false
        } else {
            4 * a.intersect(q).len() >= 3 * (if a.len() >= q.len() {
                a.len()
            } else {
                q.len()
            })
        }
    }
}

/// The words of `s`.
pub fn split_words(s: &str) -> (r: Vec<String>)
    ensures
        views(r@) == words(s@),
{
    let chars = chars_of(s);
    let mut done: Vec<String> = Vec::new();
    let mut cur: Vec<char> = Vec::new();
    let mut i: usize = 0;
    while i < chars.len()
        invariant
            i <= chars@.len(),
            chars@ == s@,
            cur@.len() > 0 <==> (i > 0 && !is_ws(chars@[i - 1])),
            words(chars@.take(i as int)) == if cur@.len() > 0 {
                views(done@).push(cur@)
            } else {
                views(done@)
            },
        decreases chars@.len() - i,
    {
        let ghost t = chars@.take(i + 1);
        assert(t.drop_last() =~= chars@.take(i as int));
        assert(t.last() == chars@[i as int]);
        if i > 0 {
            assert(t[t.len() - 2] == chars@[i - 1]);
        }
        let c = chars[i];
        if char_is_ws(c) {
            if cur.len() > 0 {
                let ghost before = views(done@);
                done.push(string_from_chars(&cur));
                assert(views(done@) =~= before.push(cur@));
                cur = Vec::new();
            }
        } else {
            let ghost before = cur@;
            cur.push(c);
            proof {
                if before.len() > 0 {
                    let w = views(done@).push(before);
                    assert(w.drop_last().push(w.last().push(c)) =~= views(done@).push(cur@));
                } else {
                    assert(cur@ =~= seq![c]);
                }
            }
        }
        i = i + 1;
    }
    assert(chars@.take(chars@.len() as int) =~= chars@);
    if cur.len() > 0 {
        let ghost before = views(done@);
        done.push(string_from_chars(&cur));
        assert(views(done@) =~= before.push(cur@));
    }
    done
}

fn contains_text(v: &Vec<String>, x: &str) -> (r: bool)
    ensures
        r == views(v@).contains(x@),
{
    let mut i: usize = 0;
    while i < v.len()
        invariant
            i <= v@.len(),
            forall|j: int| 0 <= j < i ==> views(v@)[j] != x@,
        decreases v@.len() - i,
    {
        if str_eq(v[i].as_str(), x) {
            assert(views(v@)[i as int] == x@);
            return true;
        }
        i = i + 1;
    }
    false
}

proof fn lemma_sorted_no_duplicates(s: Seq<Seq<char>>)
    requires
        strictly_sorted(s),
    ensures
        s.no_duplicates(),
        s.len() == s.to_set().len(),
{
    assert forall|i: int, j: int| 0 <= i < s.len() && 0 <= j < s.len() && i != j implies s[i] != s[j] by {
        if s[i] == s[j] {
            if i < j {
                assert(text_lt(s[i], s[j]));
            } else {
                assert(text_lt(s[j], s[i]));
            }
            lemma_text_lt_irreflexive_total(s[i], s[i]);
        }
    }
    s.unique_seq_to_set();
}

fn text_contains(s: &str, pat: &str) -> (r: bool)
    requires
        pat@.len() > 0,
    ensures
        r == contains(s@, pat@),
{
    let v = chars_of(s);
    let p = chars_of(pat);
    find_chars(&v, &p, 0).is_some()
}

/// Whether the answer repeats the printed question; both are given as
/// normalised text.
pub fn printed_question_leak(answer: &str, question: &str) -> (r: bool)
    ensures
        r == spec_printed_question_leak(answer@, question@),
{
    if answer.is_empty() || question.is_empty() {
        return false;
    }
    if str_eq(answer, question) || text_contains(answer, question) || text_contains(question, answer) {
        return true;
    }
    let a = sort_dedup(split_words(answer));
    let q = sort_dedup(split_words(question));
    let ghost aset = words(answer@).to_set();
    let ghost qset = words(question@).to_set();
    proof {
        lemma_sorted_no_duplicates(views(a@));
        lemma_sorted_no_duplicates(views(q@));
    }
    if a.len() == 0 || q.len() == 0 {
        return false;
    }
    let mut common: Vec<String> = Vec::new();
    let mut i: usize = 0;
    assert(views(common@).to_set() =~= views(a@).take(0).to_set().intersect(qset));
    while i < a.len()
        invariant
            i <= a@.len(),
            views(a@).to_set() == aset,
            views(q@).to_set() == qset,
            strictly_sorted(views(common@)),
            views(common@).to_set() == views(a@).take(i as int).to_set().intersect(qset),
        decreases a@.len() - i,
    {
        let ghost before = views(a@).take(i as int);
        assert(views(a@).take(i + 1) =~= before.push(views(a@)[i as int]));
        proof {
            before.lemma_push_to_set_commute(views(a@)[i as int]);
        }
        if contains_text(&q, a[i].as_str()) {
            let x = a[i].clone();
            insert_sorted(&mut common, x);
            assert(views(common@).to_set() =~= views(a@).take(i + 1).to_set().intersect(qset));
        } else {
            assert(!qset.contains(views(a@)[i as int]));
            assert(views(common@).to_set() =~= views(a@).take(i + 1).to_set().intersect(qset));
        }
        i = i + 1;
    }
    assert(views(a@).take(a@.len() as int) =~= views(a@));
    proof {
        lemma_sorted_no_duplicates(views(common@));
    }
    let larger: usize = if a.len() >= q.len() {
        a.len()
    } else {
        q.len()
    };
    4 * (common.len() as u128) >= 3 * (larger as u128)
}

// ---------------------------------------------------------------------------
// Commentary and unreadable spans
// ---------------------------------------------------------------------------
pub open spec fn commentary_markers() -> Seq<Seq<char>> {
    seq![
        "ogrenci burada"@,
        "ogrenci sunu"@,
        "ogrencinin cevabi"@,
        "cevap su sekildedir"@,
        "cevap sudur"@,
        "gorselde ogrencinin"@,
        "buradan anlasilmaktadir"@,
        "demek istemistir"@,
    ]
}

/// Whether the (normalised) answer is the model's commentary on the answer
/// rather than the answer: it contains one of the commentary phrases.
pub open spec fn spec_contains_commentary(normalized: Seq<char>) -> bool {
    exists|i: int| 0 <= i < commentary_markers().len() && contains(normalized, #[trigger] commentary_markers()[i])
}

pub fn contains_ocr_commentary(normalized: &str) -> (r: bool)
    ensures
        r == spec_contains_commentary(normalized@),
{
    let markers = [
        "ogrenci burada",
        "ogrenci sunu",
        "ogrencinin cevabi",
        "cevap su sekildedir",
        "cevap sudur",
        "gorselde ogrencinin",
        "buradan anlasilmaktadir",
        "demek istemistir",
    ];
    assert(keys_view(markers@) == commentary_markers());
    proof {
        reveal_strlit("ogrenci burada");
        reveal_strlit("ogrenci sunu");
        reveal_strlit("ogrencinin cevabi");
        reveal_strlit("cevap su sekildedir");
        reveal_strlit("cevap sudur");
        reveal_strlit("gorselde ogrencinin");
        reveal_strlit("buradan anlasilmaktadir");
        reveal_strlit("demek istemistir");
    }
    let mut i: usize = 0;
    while i < markers.len()
        invariant
            i <= 8,
            keys_view(markers@) == commentary_markers(),
            forall|j: int| 0 <= j < 8 ==> (#[trigger] commentary_markers()[j]).len() > 0,
            forall|j: int| 0 <= j < i ==> !contains(normalized@, #[trigger] commentary_markers()[j]),
        decreases 8 - i,
    {
        assert(markers@[i as int]@ == commentary_markers()[i as int]);
        if text_contains(normalized, markers[i]) {
            return true;
        }
        i = i + 1;
    }
    false
}

/// Whether the (normalised) answer marks a span as unreadable.
pub fn marks_unreadable(normalized: &str) -> (r: bool)
    ensures
        r == contains(normalized@, "okunamadi"@),
{
    proof {
        reveal_strlit("okunamadi");
    }
    text_contains(normalized, "okunamadi")
}

// ---------------------------------------------------------------------------
// The answer text
// ---------------------------------------------------------------------------
/// The answer text of a reply read as JSON: the string under any spelling
/// of the answer field, trimmed, unless nothing is left of it.
pub open spec fn spec_json_answer_text(v: JsonValue) -> Option<Seq<char>> {
    nonempty_trimmed(str_of(get_any(v, answer_keys())))
}

pub fn json_answer_text(v: &JsonValue) -> (r: Option<String>)
    ensures
        opt_view(r) == spec_json_answer_text(*v),
{
    let keys = ["answerText", "answer_text", "text", "answer"];
    assert(keys_view(keys@) == answer_keys());
    nonempty_trimmed_str(json_str(json_get_any(v, &keys)))
}

/// The answer text where the reply did not give one: the candidate with
/// reasoning and fences removed and trimmed (the trimmed raw reply where
/// nothing is left); where that reads as JSON with a string answer field,
/// that string, trimmed.
/// `r` is the answer text salvaged from the candidate.
pub open spec fn salvaged_from<F: Fn(&str) -> Result<JsonValue, String>>(
    candidate: Seq<char>,
    raw: Seq<char>,
    read_json: F,
    r: Seq<char>,
) -> bool {
    let t = trim(spec_strip_reasoning(candidate));
    if t.len() == 0 {
        r == trim(raw)
    } else {
        exists|s: &str, out: Result<JsonValue, String>|
            s@ == t && #[trigger] read_json.ensures((s,), out) && r == match out {
                Ok(v) => match str_of(get_any(v, answer_keys())) {
                    Some(a) => trim(a),
                    None => t,
                },
                Err(_) => t,
            }
    }
}

pub fn salvage_student_answer_text<F: Fn(&str) -> Result<JsonValue, String>>(
    candidate: &str,
    raw: &str,
    read_json: &F,
) -> (r: String)
    requires
        forall|s: &str| read_json.requires((s,)),
    ensures
        salvaged_from(candidate@, raw@, *read_json, r@),
{
    let cleaned = strip_reasoning_and_fences(candidate);
    let trimmed = trim_str(cleaned.as_str());
    if trimmed.as_str().is_empty() {
        return trim_str(raw);
    }
    let keys = ["answerText", "answer_text", "text", "answer"];
    assert(keys_view(keys@) == answer_keys());
    let out = read_json(trimmed.as_str());
    match &out {
        Ok(v) => match json_str(json_get_any(v, &keys)) {
            Some(a) => trim_str(a.as_str()),
            None => trimmed,
        },
        Err(_) => trimmed,
    }
}

/// An OCR answer read from a reply: the answer text, the confidence number
/// as the model wrote it (where it wrote one), the review metadata, the JSON
/// it came from, the answer salvaged from the candidate, and how the reply
/// was read.
#[derive(Debug)]
pub struct StudentAnswerOcrParseOutcome {
    pub answer_text: String,
    pub confidence: Option<String>,
    pub review: OcrReview,
    pub parsed_json: Option<JsonValue>,
    pub parse_error: Option<String>,
    pub salvaged_answer_text: Option<String>,
    pub parse_strategy: String,
    pub printed_text_mixed: bool,
    pub printed_question_leak_detected: bool,
    pub has_structured_answer: bool,
}

/// The structured answer of a reply: the value under the first of its
/// spellings present, unless that is `null`.
pub open spec fn structured_value(v: JsonValue) -> Option<JsonValue> {
    match get_any(v, seq!["structuredAnswer"@, "structured_answer"@]) {
        Some(JsonValue::Null) => None,
        x => x,
    }
}

pub fn structured_answer_field(v: &JsonValue) -> (r: Option<&JsonValue>)
    ensures
        deref_opt(r) == structured_value(*v),
{
    let keys = ["structuredAnswer", "structured_answer"];
    assert(keys_view(keys@) =~= seq!["structuredAnswer"@, "structured_answer"@]);
    match json_get_any(v, &keys) {
        Some(JsonValue::Null) => None,
        x => x,
    }
}

/// `normalize` maps the text to `out`.
pub open spec fn normalizes_to<N: Fn(&str) -> String>(normalize: N, text: Seq<char>, out: Seq<char>) -> bool {
    exists|s: &str, n: String| s@ == text && n@ == out && #[trigger] normalize.ensures((s,), n)
}

/// The findings on an answer text, given its normalised form `na` and that
/// of the printed question `nq`.
pub open spec fn answer_facts(
    answer: Seq<char>,
    na: Seq<char>,
    nq: Seq<char>,
    structured_answer_invalid: bool,
    parse_failed: bool,
    low_confidence: bool,
) -> OcrReviewFacts {
    OcrReviewFacts {
        structured_answer_invalid: structured_answer_invalid,
        printed_question_leak_detected: spec_printed_question_leak(na, nq),
        answer_blank: trim(answer).len() == 0,
        unreadable_span: contains(na, "okunamadi"@),
        commentary_detected: spec_contains_commentary(na),
        parse_failed: parse_failed,
        low_confidence: low_confidence,
    }
}

/// `o` is the OCR answer assembled from the reply `value`, read from
/// `candidate` by `strategy`, with the given findings from outside.
pub open spec fn is_ocr_outcome<F: Fn(&str) -> Result<JsonValue, String>, N: Fn(&str) -> String>(
    value: JsonValue,
    candidate: Seq<char>,
    strategy: Seq<char>,
    parse_error: Option<String>,
    question_text: Seq<char>,
    raw: Seq<char>,
    read_json: F,
    normalize: N,
    structured_answer_invalid: bool,
    low_confidence: bool,
    o: StudentAnswerOcrParseOutcome,
) -> bool {
    &&& o.salvaged_answer_text matches Some(sal) && salvaged_from(candidate, raw, read_json, sal@)
    &&& o.answer_text@ == or_default(spec_json_answer_text(value), o.salvaged_answer_text.unwrap()@)
    &&& opt_view(o.confidence) == number_text(value, "confidence"@)
    &&& o.parsed_json == Some(value)
    &&& o.parse_error == parse_error
    &&& o.parse_strategy@ == strategy
    &&& exists|na: Seq<char>, nq: Seq<char>|
        #[trigger] normalizes_to(normalize, o.answer_text@, na) && #[trigger] normalizes_to(
            normalize,
            question_text,
            nq,
        ) && {
            let f = answer_facts(
                o.answer_text@,
                na,
                nq,
                structured_answer_invalid,
                parse_error is Some,
                low_confidence,
            );
            &&& is_review_of(value, f, o.review)
            &&& o.printed_question_leak_detected == f.printed_question_leak_detected
            &&& o.printed_text_mixed == (f.printed_question_leak_detected || f.answer_blank)
        }
    &&& o.has_structured_answer == (structured_value(value) is Some)
}

/// Assembles the OCR answer of a reply read as JSON from `candidate` by the
/// strategy `strategy`; nothing where the reply is not an object. The answer
/// text is the reply's, or the one salvaged from the candidate; the findings
/// are taken on its normalised form (by `normalize`) against the normalised
/// question. Whether the structured answer is invalid and whether the
/// confidence is under the review threshold are given.
pub fn student_answer_ocr_outcome<F: Fn(&str) -> Result<JsonValue, String>, N: Fn(&str) -> String>(
    value: JsonValue,
    candidate: &str,
    strategy: &str,
    parse_error: Option<String>,
    question_text: &str,
    raw: &str,
    read_json: &F,
    normalize: &N,
    structured_answer_invalid: bool,
    low_confidence: bool,
) -> (r: Option<StudentAnswerOcrParseOutcome>)
    requires
        forall|s: &str| read_json.requires((s,)),
        forall|s: &str| normalize.requires((s,)),
    ensures
        match value {
            JsonValue::Obj(_) => r matches Some(o) && is_ocr_outcome(
                value,
                candidate@,
                strategy@,
                parse_error,
                question_text@,
                raw@,
                *read_json,
                *normalize,
                structured_answer_invalid,
                low_confidence,
                o,
            ),
            _ => r is None,
        },
{
    match &value {
        JsonValue::Obj(_) => {},
        _ => {
            return None;
        },
    }
    let salvaged = salvage_student_answer_text(candidate, raw, read_json);
    let answer_text = match json_answer_text(&value) {
        Some(t) => t,
        None => salvaged.clone(),
    };
    let na = normalize(answer_text.as_str());
    let nq = normalize(question_text);
    let leak = printed_question_leak(na.as_str(), nq.as_str());
    let blank = trim_str(answer_text.as_str()).as_str().is_empty();
    let facts = OcrReviewFacts {
        structured_answer_invalid,
        printed_question_leak_detected: leak,
        answer_blank: blank,
        unreadable_span: marks_unreadable(na.as_str()),
        commentary_detected: contains_ocr_commentary(na.as_str()),
        parse_failed: parse_error.is_some(),
        low_confidence,
    };
    let review = match ocr_review(&value, facts) {
        Some(o) => o,
        None => {
            return None;
        },
    };
    let confidence = match json_get(&value, "confidence") {
        Some(JsonValue::Num(n)) => Some(n.text.clone()),
        _ => None,
    };
    assert(normalizes_to(*normalize, answer_text@, na@));
    assert(normalizes_to(*normalize, question_text@, nq@));
    assert(facts == answer_facts(answer_text@, na@, nq@, structured_answer_invalid, parse_error is Some, low_confidence));
    let has_structured_answer = structured_answer_field(&value).is_some();
    let ghost v = value;
    let ghost pe = parse_error;
    let o = StudentAnswerOcrParseOutcome {
        answer_text,
        confidence,
        review,
        parsed_json: Some(value),
        parse_error,
        salvaged_answer_text: Some(salvaged),
        parse_strategy: strategy.to_owned(),
        printed_text_mixed: leak || blank,
        printed_question_leak_detected: leak,
        has_structured_answer,
    };
    assert(o.answer_text@ == or_default(spec_json_answer_text(v), o.salvaged_answer_text.unwrap()@));
    assert(opt_view(o.confidence) == number_text(v, "confidence"@));
    assert(is_review_of(v, facts, o.review));
    assert(normalizes_to(*normalize, o.answer_text@, na@) && normalizes_to(*normalize, question_text@, nq@) && {
        let f = answer_facts(o.answer_text@, na@, nq@, structured_answer_invalid, pe is Some, low_confidence);
        &&& is_review_of(v, f, o.review)
        &&& o.printed_question_leak_detected == f.printed_question_leak_detected
        &&& o.printed_text_mixed == (f.printed_question_leak_detected || f.answer_blank)
    });
    Some(o)
}

/// The texts the reader tries in turn, each with its name: the trimmed
/// reply, the fenced block, the reply without reasoning and fences, and the
/// first balanced object or array (empty where there is none).
pub open spec fn spec_ocr_attempts(raw: Seq<char>) -> Seq<(Seq<char>, Seq<char>)> {
    seq![
        ("strict_json"@, trim(raw)),
        ("fenced_json"@, match spec_fenced_json_candidate(raw) {
            Some(c) => c,
            None => Seq::empty(),
        }),
        ("trailing_prose_trim"@, spec_strip_reasoning(raw)),
        ("balanced_json"@, match first_balanced_from(trim(raw), 0) {
            Some(c) => c,
            None => Seq::empty(),
        }),
    ]
}

pub fn ocr_parse_attempts(raw: &str) -> (r: Vec<(String, String)>)
    ensures
        r@.map_values(|a: (String, String)| (a.0@, a.1@)) == spec_ocr_attempts(raw@),
{
    let fenced = match extract_fenced_json_candidate(raw) {
        Some(c) => c,
        None => String::new(),
    };
    let balanced = match extract_first_balanced_json_candidate(raw) {
        Some(c) => c,
        None => String::new(),
    };
    let r = vec![
        ("strict_json".to_string(), trim_str(raw)),
        ("fenced_json".to_string(), fenced),
        ("trailing_prose_trim".to_string(), strip_reasoning_and_fences(raw)),
        ("balanced_json".to_string(), balanced),
    ];
    assert(r@.map_values(|a: (String, String)| (a.0@, a.1@)) =~= spec_ocr_attempts(raw@));
    r
}

// ---------------------------------------------------------------------------
// Reading an OCR reply
// ---------------------------------------------------------------------------
/// The first attempt, from index `i` on, whose text is not blank and reads
/// as a JSON object.
pub open spec fn first_object_attempt<F: Fn(&str) -> Result<JsonValue, String>>(
    atts: Seq<(Seq<char>, Seq<char>)>,
    read_json: F,
    i: int,
) -> Option<int>
    decreases atts.len() - i,
{
    if i < 0 || i >= atts.len() {
        None
    } else if trim(atts[i].1).len() > 0 && read_result(read_json, atts[i].1) matches Ok(JsonValue::Obj(_)) {
        Some(i)
    } else {
        first_object_attempt(atts, read_json, i + 1)
    }
}

pub open spec fn opt_str_text(c: Option<&str>) -> Option<Seq<char>> {
    match c {
        Some(t) => Some(t@),
        None => None,
    }
}

/// What the two outside checks said of a reply: whether its structured
/// answer is invalid (false where it has none), and whether its confidence
/// is under the review threshold.
pub open spec fn outside_answers<S: Fn(&JsonValue) -> bool, L: Fn(Option<&str>) -> bool>(
    structured_answer_invalid: S,
    low_confidence: L,
    v: JsonValue,
    a: bool,
    b: bool,
) -> bool {
    &&& match structured_value(v) {
        Some(sv) => structured_answer_invalid.ensures((&sv,), a),
        None => !a,
    }
    &&& exists|c: Option<&str>|
        opt_str_text(c) == number_text(v, "confidence"@) && #[trigger] low_confidence.ensures((c,), b)
}

/// `o` is the outcome where no attempt read as a JSON object: the answer
/// salvaged from the cleaned reply, flagged for review as a parse failure
/// (and as a printed-question leak where it repeats the question).
pub open spec fn is_salvage_outcome<F: Fn(&str) -> Result<JsonValue, String>, N: Fn(&str) -> String>(
    raw: Seq<char>,
    question_text: Seq<char>,
    read_json: F,
    normalize: N,
    o: StudentAnswerOcrParseOutcome,
) -> bool {
    &&& o.salvaged_answer_text matches Some(sal) && sal@ == o.answer_text@ && salvaged_from(
        spec_strip_reasoning(raw),
        raw,
        read_json,
        sal@,
    )
    &&& o.confidence is None
    &&& o.parsed_json is None
    &&& opt_view(o.parse_error) == Some("Öğrenci OCR JSON çıktısı çözülemedi."@)
    &&& o.parse_strategy@ == "raw_text_salvage"@
    &&& !o.has_structured_answer
    &&& o.review.uncertain_spans@.len() == 0
    &&& o.review.suggested_corrections@.len() == 0
    &&& o.review.critical_term_warnings@.len() == 0
    &&& views(o.review.ocr_semantic_warnings@) == seq!["ocr_parse_failed"@]
    &&& o.review.critical_keyword_uncertain
    &&& o.review.needs_review
    &&& views(o.review.review_reasons@) == seq!["parse_failed"@]
    &&& exists|na: Seq<char>, nq: Seq<char>|
        #[trigger] normalizes_to(normalize, o.answer_text@, na) && #[trigger] normalizes_to(
            normalize,
            question_text,
            nq,
        ) && {
            let leak = spec_printed_question_leak(na, nq);
            &&& o.printed_question_leak_detected == leak
            &&& o.printed_text_mixed == leak
            &&& views(o.review.warnings@) == seq!["ocr_parse_failed"@] + if leak {
                seq!["printed_question_leak_detected"@]
            } else {
                Seq::<Seq<char>>::empty()
            }
        }
}

/// Reads a student-answer OCR reply: the attempts are tried in turn, and the
/// first whose text reads (by `read_json`) as a JSON object gives the
/// answer; where none does, the answer is salvaged from the reply. Whether
/// the structured answer is invalid and whether the confidence is under the
/// review threshold are asked of `structured_answer_invalid` and
/// `low_confidence`; the texts are normalised by `normalize`.
pub fn parse_student_answer_ocr_output<
    F: Fn(&str) -> Result<JsonValue, String>,
    N: Fn(&str) -> String,
    S: Fn(&JsonValue) -> bool,
    L: Fn(Option<&str>) -> bool,
>(
    raw: &str,
    question_text: &str,
    read_json: &F,
    normalize: &N,
    structured_answer_invalid: &S,
    low_confidence: &L,
) -> (r: StudentAnswerOcrParseOutcome)
    requires
        forall|s: &str| read_json.requires((s,)),
        forall|s: &str| normalize.requires((s,)),
        forall|v: &JsonValue| structured_answer_invalid.requires((v,)),
        forall|c: Option<&str>| low_confidence.requires((c,)),
        deterministic_reader(*read_json),
    ensures
        ({
            let atts = spec_ocr_attempts(raw@);
            match first_object_attempt(atts, *read_json, 0) {
                Some(k) => match read_result(*read_json, atts[k].1) {
                    Ok(v) => exists|a: bool, b: bool|
                        #[trigger] outside_answers(*structured_answer_invalid, *low_confidence, v, a, b)
                            && is_ocr_outcome(
                            v,
                            atts[k].1,
                            atts[k].0,
                            None,
                            question_text@,
                            raw@,
                            *read_json,
                            *normalize,
                            a,
                            b,
                            r,
                        ),
                    Err(_) => false,
                },
                None => is_salvage_outcome(raw@, question_text@, *read_json, *normalize, r),
            }
        }),
{
    let attempts = ocr_parse_attempts(raw);
    let ghost atts = spec_ocr_attempts(raw@);
    let mut i: usize = 0;
    while i < attempts.len()
        invariant
            i <= attempts@.len(),
            attempts@.map_values(|a: (String, String)| (a.0@, a.1@)) == atts,
            atts == spec_ocr_attempts(raw@),
            first_object_attempt(atts, *read_json, 0) == first_object_attempt(atts, *read_json, i as int),
            forall|s: &str| read_json.requires((s,)),
            forall|s: &str| normalize.requires((s,)),
            forall|v: &JsonValue| structured_answer_invalid.requires((v,)),
            forall|c: Option<&str>| low_confidence.requires((c,)),
            deterministic_reader(*read_json),
        decreases attempts@.len() - i,
    {
        let strategy = attempts[i].0.as_str();
        let candidate = attempts[i].1.as_str();
        assert(atts[i as int] == (strategy@, candidate@));
        let t = trim_str(candidate);
        if !t.as_str().is_empty() {
            let out = read_json(candidate);
            proof {
                assert(reads_to(*read_json, candidate@, out));
                let c = read_result(*read_json, candidate@);
                let s0 = choose|s: &str| s@ == candidate@ && #[trigger] read_json.ensures((s,), c);
                assert(c == out);
            }
            match out {
                Ok(value) => {
                    match &value {
                        JsonValue::Obj(_) => {
                            let a = match structured_answer_field(&value) {
                                Some(sv) => structured_answer_invalid(sv),
                                None => false,
                            };
                            let confidence = match json_get(&value, "confidence") {
                                Some(JsonValue::Num(n)) => Some(n.text.as_str()),
                                _ => None,
                            };
                            let b = low_confidence(confidence);
                            assert(outside_answers(*structured_answer_invalid, *low_confidence, value, a, b));
                            let ghost v = value;
                            let o = student_answer_ocr_outcome(
                                value,
                                candidate,
                                strategy,
                                None,
                                question_text,
                                raw,
                                read_json,
                                normalize,
                                a,
                                b,
                            );
                            return o.unwrap();
                        },
                        _ => {},
                    }
                },
                Err(_) => {},
            }
        }
        i = i + 1;
    }
    salvage_outcome(raw, question_text, read_json, normalize)
}

fn salvage_outcome<F: Fn(&str) -> Result<JsonValue, String>, N: Fn(&str) -> String>(
    raw: &str,
    question_text: &str,
    read_json: &F,
    normalize: &N,
) -> (r: StudentAnswerOcrParseOutcome)
    requires
        forall|s: &str| read_json.requires((s,)),
        forall|s: &str| normalize.requires((s,)),
    ensures
        is_salvage_outcome(raw@, question_text@, *read_json, *normalize, r),
{
    let cleaned = strip_reasoning_and_fences(raw);
    let answer = salvage_student_answer_text(cleaned.as_str(), raw, read_json);
    let na = normalize(answer.as_str());
    let nq = normalize(question_text);
    let leak = printed_question_leak(na.as_str(), nq.as_str());
    let mut warnings: Vec<String> = vec!["ocr_parse_failed".to_string()];
    if leak {
        warnings.push("printed_question_leak_detected".to_string());
    }
    let review = OcrReview {
        uncertain_spans: Vec::new(),
        suggested_corrections: Vec::new(),
        critical_term_warnings: Vec::new(),
        ocr_semantic_warnings: vec!["ocr_parse_failed".to_string()],
        critical_keyword_uncertain: true,
        needs_review: true,
        review_reasons: vec!["parse_failed".to_string()],
        warnings,
    };
    let o = StudentAnswerOcrParseOutcome {
        answer_text: answer.clone(),
        confidence: None,
        review,
        parsed_json: None,
        parse_error: Some("Öğrenci OCR JSON çıktısı çözülemedi.".to_string()),
        salvaged_answer_text: Some(answer),
        parse_strategy: "raw_text_salvage".to_string(),
        printed_text_mixed: leak,
        printed_question_leak_detected: leak,
        has_structured_answer: false,
    };
    assert(views(o.review.ocr_semantic_warnings@) =~= seq!["ocr_parse_failed"@]);
    assert(views(o.review.review_reasons@) =~= seq!["parse_failed"@]);
    assert(views(o.review.warnings@) =~= seq!["ocr_parse_failed"@] + if leak {
        seq!["printed_question_leak_detected"@]
    } else {
        Seq::<Seq<char>>::empty()
    });
    assert(normalizes_to(*normalize, o.answer_text@, na@));
    assert(normalizes_to(*normalize, question_text@, nq@));
    o
}

// ---------------------------------------------------------------------------
// A suggested correction of one OCR issue
// ---------------------------------------------------------------------------
/// What the model decided about an OCR issue.
#[derive(PartialEq, Eq, Structural, Clone, Copy, Debug)]
pub enum StudentAnswerOcrIssueCorrectionDecision {
    SuggestCorrection,
    NoChange,
    NeedsTeacherReview,
}

/// A suggested correction as the teacher sees it: it always needs the
/// teacher's approval.
#[derive(Debug)]
pub struct IssueCorrectionReview {
    pub decision: StudentAnswerOcrIssueCorrectionDecision,
    pub original_text: String,
    pub suggested_text: Option<String>,
    pub visual_reading: Option<String>,
    pub context_reason: String,
    pub requires_teacher_approval: bool,
    pub warnings: Vec<String>,
}

/// The scope of a correction of `original`: one word or a short phrase.
pub open spec fn observed_scope(original: Seq<char>) -> StudentAnswerOcrIssueCorrectionScope {
    if word_count(original) <= 1 {
        StudentAnswerOcrIssueCorrectionScope::SingleWord
    } else {
        StudentAnswerOcrIssueCorrectionScope::ShortPhrase
    }
}

/// The suggestion stays within the scope of the original text.
pub open spec fn within_scope(original: Seq<char>, suggested: Option<Seq<char>>) -> bool {
    match suggested {
        None => true,
        Some(t) => match observed_scope(original) {
            StudentAnswerOcrIssueCorrectionScope::SingleWord => word_count(t) <= 1,
            StudentAnswerOcrIssueCorrectionScope::ShortPhrase => word_count(t) <= 2,
        },
    }
}

/// The suggestion that remains: none where it leaves the scope or nothing
/// is to change.
pub open spec fn spec_kept_suggestion(
    decision: StudentAnswerOcrIssueCorrectionDecision,
    original: Seq<char>,
    suggested: Option<Seq<char>>,
) -> Option<Seq<char>> {
    let s = nonempty_trimmed(suggested);
    if !within_scope(trim(original), s) || decision == StudentAnswerOcrIssueCorrectionDecision::NoChange {
        None
    } else {
        s
    }
}

/// The decision that remains: teacher review where the suggestion left its
/// scope, or where a correction is suggested without a text.
pub open spec fn spec_final_decision(
    decision: StudentAnswerOcrIssueCorrectionDecision,
    original: Seq<char>,
    suggested: Option<Seq<char>>,
) -> StudentAnswerOcrIssueCorrectionDecision {
    let s = nonempty_trimmed(suggested);
    if !within_scope(trim(original), s) {
        StudentAnswerOcrIssueCorrectionDecision::NeedsTeacherReview
    } else if decision == StudentAnswerOcrIssueCorrectionDecision::SuggestCorrection && s is None {
        StudentAnswerOcrIssueCorrectionDecision::NeedsTeacherReview
    } else {
        decision
    }
}

/// The warnings: those given, and one for a blocked scope expansion, a
/// suggestion without a text, and a confidence under the threshold.
pub open spec fn spec_issue_warnings(
    decision: StudentAnswerOcrIssueCorrectionDecision,
    original: Seq<char>,
    suggested: Option<Seq<char>>,
    warnings: Seq<Seq<char>>,
    confidence_low: bool,
) -> Set<Seq<char>> {
    let s = nonempty_trimmed(suggested);
    let blocked = !within_scope(trim(original), s);
    warnings.to_set() + when(blocked, "scope_expansion_blocked"@) + when(
        !blocked && decision == StudentAnswerOcrIssueCorrectionDecision::SuggestCorrection && s is None,
        "issue_context_missing"@,
    ) + when(confidence_low, "suggestion_confidence_low"@)
}

/// Checks a suggested correction of an OCR issue as the model returned it:
/// the original text and the reason must not be blank; a suggestion that
/// changes more than its scope allows is dropped for teacher review, as is
/// a correction suggested without a text; `confidence_low` tells whether
/// the model's confidence is under the review policy's threshold. Warnings
/// come sorted, each once.
pub fn review_issue_correction(
    decision: StudentAnswerOcrIssueCorrectionDecision,
    original_text: &str,
    suggested_text: Option<String>,
    visual_reading: Option<String>,
    context_reason: &str,
    warnings: Vec<String>,
    confidence_low: bool,
) -> (r: Result<IssueCorrectionReview, AppError>)
    ensures
        match r {
            Ok(o) => {
                &&& trim(original_text@).len() > 0 && trim(context_reason@).len() > 0
                &&& o.original_text@ == trim(original_text@)
                &&& o.context_reason@ == trim(context_reason@)
                &&& opt_view(o.visual_reading) == nonempty_trimmed(opt_view(visual_reading))
                &&& opt_view(o.suggested_text) == spec_kept_suggestion(
                    decision,
                    original_text@,
                    opt_view(suggested_text),
                )
                &&& o.decision == spec_final_decision(decision, original_text@, opt_view(suggested_text))
                &&& o.requires_teacher_approval
                &&& strictly_sorted(views(o.warnings@))
                &&& views(o.warnings@).to_set() == spec_issue_warnings(
                    decision,
                    original_text@,
                    opt_view(suggested_text),
                    views(warnings@),
                    confidence_low,
                )
            },
            Err(e) => (trim(original_text@).len() == 0 || trim(context_reason@).len() == 0) && e.code
                == AppErrorCode::ModelResponseInvalidSchema,
        },
{
    let original = trim_str(original_text);
    let reason = trim_str(context_reason);
    if original.as_str().is_empty() {
        return Err(
            app_error(
                AppErrorCode::ModelResponseInvalidSchema,
                "`originalText` alanı boş olamaz.",
                None,
                Some("Model output schema is invalid.".to_string()),
            ),
        );
    }
    if reason.as_str().is_empty() {
        return Err(
            app_error(
                AppErrorCode::ModelResponseInvalidSchema,
                "`contextReason` alanı boş olamaz.",
                None,
                Some("Model output schema is invalid.".to_string()),
            ),
        );
    }
    let visual = nonempty_trimmed_str(
        match &visual_reading {
            Some(v) => Some(v),
            None => None,
        },
    );
    let mut suggested = nonempty_trimmed_str(
        match &suggested_text {
            Some(v) => Some(v),
            None => None,
        },
    );
    let mut w = warnings;
    let mut decision = decision;
    let scope = issue_scope_from_text(original.as_str());
    let allowed = match &suggested {
        Some(t) => scope_allows_text(&scope, Some(t.as_str())),
        None => scope_allows_text(&scope, None),
    };
    let blocked = !allowed;
    if blocked {
        decision = StudentAnswerOcrIssueCorrectionDecision::NeedsTeacherReview;
        suggested = None;
    }
    if decision == StudentAnswerOcrIssueCorrectionDecision::NoChange {
        suggested = None;
    }
    let missing = decision == StudentAnswerOcrIssueCorrectionDecision::SuggestCorrection && suggested.is_none();
    if missing {
        decision = StudentAnswerOcrIssueCorrectionDecision::NeedsTeacherReview;
    }
    push_when(&mut w, blocked, "scope_expansion_blocked");
    push_when(&mut w, missing, "issue_context_missing");
    push_when(&mut w, confidence_low, "suggestion_confidence_low");
    let sorted = sort_dedup(w);
    Ok(
        IssueCorrectionReview {
            decision,
            original_text: original,
            suggested_text: suggested,
            visual_reading: visual,
            context_reason: reason,
            requires_teacher_approval: true,
            warnings: sorted,
        },
    )
}

// ---------------------------------------------------------------------------
// Laws
// ---------------------------------------------------------------------------
/// Whether an answer repeats the printed question does not depend on which
/// of the two texts is the answer.
pub proof fn lemma_printed_question_leak_symmetric(answer: Seq<char>, question: Seq<char>)
    ensures
        spec_printed_question_leak(answer, question) == spec_printed_question_leak(question, answer),
{
    let a = words(answer).to_set();
    let q = words(question).to_set();
    assert(a.intersect(q) =~= q.intersect(a));
}

/// Every reason the reader adds to those the model gave sends the answer
/// to review.
pub proof fn lemma_added_reason_forces_review(v: JsonValue, f: OcrReviewFacts, code: Seq<char>)
    requires
        spec_review_reasons(v, f).contains(code),
        !string_list_any(v, seq!["reviewReasons"@, "review_reasons"@]).to_set().contains(code),
    ensures
        spec_needs_review(v, f),
{
}

/// A suggestion that survives the check never changes more than the scope
/// of the original text allows.
pub proof fn lemma_kept_suggestion_within_scope(
    decision: StudentAnswerOcrIssueCorrectionDecision,
    original: Seq<char>,
    suggested: Option<Seq<char>>,
)
    ensures
        within_scope(trim(original), spec_kept_suggestion(decision, original, suggested)),
        decision == StudentAnswerOcrIssueCorrectionDecision::NoChange ==> spec_kept_suggestion(
            decision,
            original,
            suggested,
        ) is None,
{
}
} // verus!
