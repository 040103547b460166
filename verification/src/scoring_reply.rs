//! Reading the model's scoring reply: per-criterion scores or semantic level
//! decisions, the scores the model must not give directly, the review
//! decision and the schema checks. Scores stay the text the model wrote;
//! the range checks on their values are the caller's predicates.
use vstd::prelude::*;
use crate::json::{arr_of, bool_of, get, get_any, json_arr, json_bool, json_get, json_get_any, json_str,
    json_string_array, keys_view, opt_view, str_of, string_array_field, views, JsonValue};
use crate::model_reply::{json_candidate, number_text, spec_json_candidate};
use crate::ocr_reply::{has_any, has_key_any, list_any, or_default};
use crate::seqs::{filter_map, first_index, lemma_filter_map_step, lemma_first_index,
    lemma_first_index_is, lemma_first_index_none, lemma_take_all};
use crate::speaking_reply::{first_text, first_text_of, json_text, text_at};
use crate::text::{chars_of, lemma_text_lt_transitive, lower_seq, lower_str, slice_string, str_eq, strictly_sorted, text_lt, trim, trim_str};

verus! {

// ---------------------------------------------------------------------------
// Number literals
// ---------------------------------------------------------------------------
pub open spec fn is_digit(c: char) -> bool {
    '0' <= c && c <= '9'
}

pub open spec fn all_digits(s: Seq<char>) -> bool {
    forall|i: int| 0 <= i < s.len() ==> is_digit(#[trigger] s[i])
}

/// The text after one leading sign, if it has one.
pub open spec fn unsigned_part(s: Seq<char>) -> Seq<char> {
    if s.len() > 0 && (s[0] == '+' || s[0] == '-') {
        s.drop_first()
    } else {
        s
    }
}

pub open spec fn is_dot(c: char) -> bool {
    c == '.'
}

pub open spec fn is_exp_mark(c: char) -> bool {
    c == 'e' || c == 'E'
}

/// Digits with at most one decimal point, and at least one digit.
pub open spec fn decimal_mantissa(m: Seq<char>) -> bool {
    let d = first_index(m, |c: char| is_dot(c));
    if d < 0 {
        m.len() > 0 && all_digits(m)
    } else {
        m.len() >= 2 && all_digits(m.take(d)) && all_digits(m.skip(d + 1))
    }
}

/// The texts that std's `f64` parser reads: an optional sign, then `inf`,
/// `infinity` or `nan` in any case, or a decimal mantissa with an optional
/// exponent (`e` or `E`, an optional sign, digits).
pub open spec fn float_literal(s: Seq<char>) -> bool {
    let t = unsigned_part(s);
    let l = lower_seq(t);
    if l == "inf"@ || l == "infinity"@ || l == "nan"@ {
        true
    } else {
        let e = first_index(t, |c: char| is_exp_mark(c));
        if e < 0 {
            decimal_mantissa(t)
        } else {
            let x = unsigned_part(t.skip(e + 1));
            decimal_mantissa(t.take(e)) && x.len() > 0 && all_digits(x)
        }
    }
}

fn char_is_digit(c: char) -> (r: bool)
    ensures
        r == is_digit(c),
{
    '0' <= c && c <= '9'
}

fn digits_between(v: &Vec<char>, lo: usize, hi: usize) -> (r: bool)
    requires
        lo <= hi <= v@.len(),
    ensures
        r == all_digits(v@.subrange(lo as int, hi as int)),
{
    let ghost s = v@.subrange(lo as int, hi as int);
    let mut i: usize = lo;
    while i < hi
        invariant
            lo <= i <= hi,
            hi <= v@.len(),
            s == v@.subrange(lo as int, hi as int),
            forall|j: int| 0 <= j < i - lo ==> is_digit(#[trigger] s[j]),
        decreases hi - i,
    {
        if !char_is_digit(v[i]) {
            assert(s[i - lo] == v@[i as int]);
            return false;
        }
        assert(s[i - lo] == v@[i as int]);
        i = i + 1;
    }
    true
}

/// Position, counted from `lo`, of the first character in `v[lo..hi]` that
/// is a decimal point (`dot`) or an exponent mark (otherwise).
fn find_mark(v: &Vec<char>, lo: usize, hi: usize, dot: bool) -> (r: Option<usize>)
    requires
        lo <= hi <= v@.len(),
    ensures
        ({
            let s = v@.subrange(lo as int, hi as int);
            let k = if dot {
                first_index(s, |c: char| is_dot(c))
            } else {
                first_index(s, |c: char| is_exp_mark(c))
            };
            match r {
                Some(i) => k == i as int,
                None => k == -1,
            }
        }),
{
    let ghost s = v@.subrange(lo as int, hi as int);
    let ghost p = if dot {
        |c: char| is_dot(c)
    } else {
        |c: char| is_exp_mark(c)
    };
    let mut i: usize = lo;
    while i < hi
        invariant
            lo <= i <= hi,
            hi <= v@.len(),
            s == v@.subrange(lo as int, hi as int),
            p == (if dot {
                |c: char| is_dot(c)
            } else {
                |c: char| is_exp_mark(c)
            }),
            forall|j: int| 0 <= j < i - lo ==> !p(#[trigger] s[j]),
        decreases hi - i,
    {
        let c = v[i];
        assert(s[i - lo] == c);
        let hit = if dot {
            c == '.'
        } else {
            c == 'e' || c == 'E'
        };
        if hit {
            proof {
                lemma_first_index_is(s, p, i - lo);
            }
            return Some(i - lo);
        }
        i = i + 1;
    }
    proof {
        lemma_first_index_none(s, p);
    }
    None
}

fn mantissa_between(v: &Vec<char>, lo: usize, hi: usize) -> (r: bool)
    requires
        lo <= hi <= v@.len(),
    ensures
        r == decimal_mantissa(v@.subrange(lo as int, hi as int)),
{
    let ghost m = v@.subrange(lo as int, hi as int);
    match find_mark(v, lo, hi, true) {
        None => hi > lo && digits_between(v, lo, hi),
        Some(d) => {
            proof {
                lemma_first_index(m, |c: char| is_dot(c));
            }
            assert(m.take(d as int) =~= v@.subrange(lo as int, lo + d));
            assert(m.skip(d + 1) =~= v@.subrange(lo + d + 1, hi as int));
            hi - lo >= 2 && digits_between(v, lo, lo + d) && digits_between(v, lo + d + 1, hi)
        },
    }
}

/// Whether std's `f64` parser reads the text.
pub fn is_float_literal(s: &str) -> (r: bool)
    ensures
        r == float_literal(s@),
{
    let v = chars_of(s);
    let n = v.len();
    let lo: usize = if n > 0 && (v[0] == '+' || v[0] == '-') {
        1
    } else {
        0
    };
    let ghost t = unsigned_part(s@);
    assert(t =~= v@.subrange(lo as int, n as int));
    let word = lower_str(slice_string(&v, lo, n).as_str());
    if str_eq(word.as_str(), "inf") || str_eq(word.as_str(), "infinity") || str_eq(word.as_str(), "nan") {
        return true;
    }
    match find_mark(&v, lo, n, false) {
        None => mantissa_between(&v, lo, n),
        Some(e) => {
            proof {
                lemma_first_index(t, |c: char| is_exp_mark(c));
            }
            assert(t.take(e as int) =~= v@.subrange(lo as int, lo + e));
            let x0 = lo + e + 1;
            let x: usize = if x0 < n && (v[x0] == '+' || v[x0] == '-') {
                x0 + 1
            } else {
                x0
            };
            assert(unsigned_part(t.skip(e + 1)) =~= v@.subrange(x as int, n as int));
            mantissa_between(&v, lo, lo + e) && x < n && digits_between(&v, x, n)
        },
    }
}

// ---------------------------------------------------------------------------
// Numbers, texts and evidence of a field
// ---------------------------------------------------------------------------
/// The number a field holds: a JSON number's text, or a string's trimmed
/// text where it is a number literal.
pub open spec fn number_value(o: Option<JsonValue>) -> Option<Seq<char>> {
    match o {
        Some(JsonValue::Num(n)) => Some(n.text@),
        Some(JsonValue::Str(s)) => if float_literal(trim(s@)) {
            Some(trim(s@))
        } else {
            None
        },
        _ => None,
    }
}

/// The first number among `keys`.
pub open spec fn first_number(v: JsonValue, keys: Seq<Seq<char>>) -> Option<Seq<char>>
    decreases keys.len(),
{
    if keys.len() == 0 {
        None
    } else {
        match number_value(get(v, keys[0])) {
            Some(t) => Some(t),
            None => first_number(v, keys.drop_first()),
        }
    }
}

/// The text of the first of `keys` that holds one, or the empty text.
pub open spec fn object_text(v: JsonValue, keys: Seq<Seq<char>>) -> Seq<char> {
    or_default(first_text(v, keys), Seq::empty())
}

fn number_at(o: Option<&JsonValue>) -> (r: Option<String>)
    ensures
        opt_view(r) == number_value(crate::json::deref_opt(o)),
{
    match o {
        Some(JsonValue::Num(n)) => Some(n.text.clone()),
        Some(JsonValue::Str(s)) => {
            let t = trim_str(s.as_str());
            if is_float_literal(t.as_str()) {
                Some(t)
            } else {
                None
            }
        },
        _ => None,
    }
}

fn first_number_of(v: &JsonValue, keys: &[&str]) -> (r: Option<String>)
    ensures
        opt_view(r) == first_number(*v, keys_view(keys@)),
{
    let ghost kv = keys_view(keys@);
    let mut i: usize = 0;
    assert(kv.skip(0) =~= kv);
    while i < keys.len()
        invariant
            i <= keys@.len(),
            kv == keys_view(keys@),
            first_number(*v, kv) == first_number(*v, kv.skip(i as int)),
        decreases keys@.len() - i,
    {
        let ghost rest = kv.skip(i as int);
        assert(rest[0] == keys@[i as int]@);
        assert(rest.drop_first() =~= kv.skip(i + 1));
        match number_at(json_get(v, keys[i])) {
            Some(t) => {
                return Some(t);
            },
            None => {},
        }
        i = i + 1;
    }
    None
}

fn object_text_of(v: &JsonValue, keys: &[&str]) -> (r: String)
    ensures
        r@ == object_text(*v, keys_view(keys@)),
{
    match first_text_of(v, keys) {
        Some(t) => t,
        None => String::new(),
    }
}

pub open spec fn quote_keys() -> Seq<Seq<char>> {
    seq!["quote"@, "text"@, "evidence"@]
}

/// The quote of an evidence object: its first text, unless empty.
pub open spec fn object_quote(item: JsonValue) -> Option<Seq<char>> {
    match item {
        JsonValue::Obj(_) => {
            let t = object_text(item, quote_keys());
            if t.len() > 0 {
                Some(t)
            } else {
                None
            }
        },
        _ => None,
    }
}

/// The first item that has a text.
pub open spec fn first_item_text(items: Seq<JsonValue>) -> Option<Seq<char>>
    decreases items.len(),
{
    if items.len() == 0 {
        None
    } else {
        match json_text(Some(items[0])) {
            Some(t) => Some(t),
            None => first_item_text(items.drop_first()),
        }
    }
}

/// The first item that is an evidence object with a quote.
pub open spec fn first_item_quote(items: Seq<JsonValue>) -> Option<Seq<char>>
    decreases items.len(),
{
    if items.len() == 0 {
        None
    } else {
        match object_quote(items[0]) {
            Some(t) => Some(t),
            None => first_item_quote(items.drop_first()),
        }
    }
}

/// The evidence a field gives: its text; else, for an object, its quote;
/// else, for a list, the first item's text, or else the first item's quote.
pub open spec fn evidence_of(value: JsonValue) -> Option<Seq<char>> {
    match json_text(Some(value)) {
        Some(t) => Some(t),
        None => match value {
            JsonValue::Obj(_) => object_quote(value),
            JsonValue::Arr(items) => match first_item_text(items@) {
                Some(t) => Some(t),
                None => first_item_quote(items@),
            },
            _ => None,
        },
    }
}

pub open spec fn evidence_keys() -> Seq<Seq<char>> {
    seq!["evidenceQuote"@, "evidence_quote"@, "quote"@, "evidence"@]
}

/// The evidence of the first of `keys` that gives one.
pub open spec fn evidence_among(item: JsonValue, keys: Seq<Seq<char>>) -> Option<Seq<char>>
    decreases keys.len(),
{
    if keys.len() == 0 {
        None
    } else {
        match get(item, keys[0]) {
            Some(value) => match evidence_of(value) {
                Some(t) => Some(t),
                None => evidence_among(item, keys.drop_first()),
            },
            None => evidence_among(item, keys.drop_first()),
        }
    }
}

fn object_quote_of(item: &JsonValue) -> (r: Option<String>)
    ensures
        opt_view(r) == object_quote(*item),
{
    match item {
        JsonValue::Obj(_) => {
            let keys = ["quote", "text", "evidence"];
            assert(keys_view(keys@) =~= quote_keys());
            let t = object_text_of(item, &keys);
            if t.as_str().is_empty() {
                None
            } else {
                Some(t)
            }
        },
        _ => None,
    }
}

fn first_item_text_of(items: &Vec<JsonValue>) -> (r: Option<String>)
    ensures
        opt_view(r) == first_item_text(items@),
{
    let mut i: usize = 0;
    assert(items@.skip(0) =~= items@);
    while i < items.len()
        invariant
            i <= items@.len(),
            first_item_text(items@) == first_item_text(items@.skip(i as int)),
        decreases items@.len() - i,
    {
        assert(items@.skip(i as int).drop_first() =~= items@.skip(i + 1));
        assert(items@.skip(i as int)[0] == items@[i as int]);
        match text_at(Some(&items[i])) {
            Some(t) => {
                return Some(t);
            },
            None => {},
        }
        i = i + 1;
    }
    None
}

fn first_item_quote_of(items: &Vec<JsonValue>) -> (r: Option<String>)
    ensures
        opt_view(r) == first_item_quote(items@),
{
    let mut i: usize = 0;
    assert(items@.skip(0) =~= items@);
    while i < items.len()
        invariant
            i <= items@.len(),
            first_item_quote(items@) == first_item_quote(items@.skip(i as int)),
        decreases items@.len() - i,
    {
        assert(items@.skip(i as int).drop_first() =~= items@.skip(i + 1));
        assert(items@.skip(i as int)[0] == items@[i as int]);
        match object_quote_of(&items[i]) {
            Some(t) => {
                return Some(t);
            },
            None => {},
        }
        i = i + 1;
    }
    None
}

fn evidence_of_value(value: &JsonValue) -> (r: Option<String>)
    ensures
        opt_view(r) == evidence_of(*value),
{
    match text_at(Some(value)) {
        Some(t) => Some(t),
        None => match value {
            JsonValue::Obj(_) => object_quote_of(value),
            JsonValue::Arr(items) => match first_item_text_of(items) {
                Some(t) => Some(t),
                None => first_item_quote_of(items),
            },
            _ => None,
        },
    }
}

/// The evidence quote of a criterion object.
pub fn object_evidence(item: &JsonValue) -> (r: Option<String>)
    ensures
        opt_view(r) == evidence_among(*item, evidence_keys()),
{
    let keys = ["evidenceQuote", "evidence_quote", "quote", "evidence"];
    let ghost kv = keys_view(keys@);
    assert(kv =~= evidence_keys());
    let mut i: usize = 0;
    assert(kv.skip(0) =~= kv);
    while i < 4
        invariant
            i <= 4,
            kv == keys_view(keys@),
            kv == evidence_keys(),
            keys@.len() == 4,
            evidence_among(*item, kv) == evidence_among(*item, kv.skip(i as int)),
        decreases 4 - i,
    {
        let ghost rest = kv.skip(i as int);
        assert(kv.len() == 4);
        assert(rest.len() > 0);
        assert(rest[0] == keys@[i as int]@);
        assert(rest.drop_first() =~= kv.skip(i + 1));
        match json_get(item, keys[i]) {
            Some(value) => match evidence_of_value(value) {
                Some(t) => {
                    return Some(t);
                },
                None => {},
            },
            None => {},
        }
        i = i + 1;
    }
    None
}

// ---------------------------------------------------------------------------
// Criterion scores and semantic decisions
// ---------------------------------------------------------------------------
/// A criterion's score as the model gave it. The maximum and the awarded
/// score are the number texts the model wrote, where it wrote one (none
/// counts as zero).
#[derive(Debug)]
pub struct ScoringCriterionScore {
    pub criterion_id: String,
    pub criterion_title: String,
    pub criterion_max_score: Option<String>,
    pub awarded_score: Option<String>,
    pub rationale: String,
    pub evidence_quote: Option<String>,
}

pub struct CriterionScoreView {
    pub criterion_id: Seq<char>,
    pub criterion_title: Seq<char>,
    pub criterion_max_score: Option<Seq<char>>,
    pub awarded_score: Option<Seq<char>>,
    pub rationale: Seq<char>,
    pub evidence_quote: Option<Seq<char>>,
}

impl View for ScoringCriterionScore {
    type V = CriterionScoreView;

    open spec fn view(&self) -> CriterionScoreView {
        CriterionScoreView {
            criterion_id: self.criterion_id@,
            criterion_title: self.criterion_title@,
            criterion_max_score: opt_view(self.criterion_max_score),
            awarded_score: opt_view(self.awarded_score),
            rationale: self.rationale@,
            evidence_quote: opt_view(self.evidence_quote),
        }
    }
}

/// A semantic decision: the level chosen for a criterion, with its evidence.
#[derive(Debug)]
pub struct SemanticCriterionDecision {
    pub criterion_id: String,
    pub level_id: String,
    pub exact_evidence: Option<String>,
    pub missing_requirements: Vec<String>,
    pub contradiction: bool,
    pub rationale: String,
}

pub struct DecisionView {
    pub criterion_id: Seq<char>,
    pub level_id: Seq<char>,
    pub exact_evidence: Option<Seq<char>>,
    pub missing_requirements: Seq<Seq<char>>,
    pub contradiction: bool,
    pub rationale: Seq<char>,
}

impl View for SemanticCriterionDecision {
    type V = DecisionView;

    open spec fn view(&self) -> DecisionView {
        DecisionView {
            criterion_id: self.criterion_id@,
            level_id: self.level_id@,
            exact_evidence: opt_view(self.exact_evidence),
            missing_requirements: views(self.missing_requirements@),
            contradiction: self.contradiction,
            rationale: self.rationale@,
        }
    }
}

pub open spec fn criterion_id_keys() -> Seq<Seq<char>> {
    seq!["criterionId"@, "criterion_id"@]
}

pub open spec fn criterion_title_keys() -> Seq<Seq<char>> {
    seq![
        "criterionTitle"@,
        "criterion_title"@,
        "title"@,
        "label"@,
        "criterion"@,
        "criterionName"@,
        "criterion_name"@,
        "name"@,
    ]
}

pub open spec fn criterion_max_keys() -> Seq<Seq<char>> {
    seq!["criterionMaxScore"@, "criterion_max_score"@, "maxScore"@, "max_score"@, "points"@]
}

pub open spec fn criterion_awarded_keys() -> Seq<Seq<char>> {
    seq!["awardedScore"@, "awarded_score"@, "score"@, "points"@]
}

pub open spec fn criterion_rationale_keys() -> Seq<Seq<char>> {
    seq!["rationale"@, "reason"@, "explanation"@, "feedback"@]
}

/// A criterion score read off a list item: every object is one, each field
/// under the first of its spellings that holds a value.
pub open spec fn spec_criterion_score(item: JsonValue) -> Option<CriterionScoreView> {
    match item {
        JsonValue::Obj(_) => Some(
            CriterionScoreView {
                criterion_id: object_text(item, criterion_id_keys()),
                criterion_title: object_text(item, criterion_title_keys()),
                criterion_max_score: first_number(item, criterion_max_keys()),
                awarded_score: first_number(item, criterion_awarded_keys()),
                rationale: object_text(item, criterion_rationale_keys()),
                evidence_quote: evidence_among(item, evidence_keys()),
            },
        ),
        _ => None,
    }
}

pub fn criterion_score(item: &JsonValue) -> (r: Option<ScoringCriterionScore>)
    ensures
        match r {
            Some(c) => spec_criterion_score(*item) == Some(c@),
            None => spec_criterion_score(*item) is None,
        },
{
    match item {
        JsonValue::Obj(_) => {},
        _ => {
            return None;
        },
    }
    let id_keys = ["criterionId", "criterion_id"];
    assert(keys_view(id_keys@) =~= criterion_id_keys());
    let title_keys = [
        "criterionTitle",
        "criterion_title",
        "title",
        "label",
        "criterion",
        "criterionName",
        "criterion_name",
        "name",
    ];
    assert(keys_view(title_keys@) =~= criterion_title_keys());
    let max_keys = ["criterionMaxScore", "criterion_max_score", "maxScore", "max_score", "points"];
    assert(keys_view(max_keys@) =~= criterion_max_keys());
    let awarded_keys = ["awardedScore", "awarded_score", "score", "points"];
    assert(keys_view(awarded_keys@) =~= criterion_awarded_keys());
    let rationale_keys = ["rationale", "reason", "explanation", "feedback"];
    assert(keys_view(rationale_keys@) =~= criterion_rationale_keys());
    let c = ScoringCriterionScore {
        criterion_id: object_text_of(item, &id_keys),
        criterion_title: object_text_of(item, &title_keys),
        criterion_max_score: first_number_of(item, &max_keys),
        awarded_score: first_number_of(item, &awarded_keys),
        rationale: object_text_of(item, &rationale_keys),
        evidence_quote: object_evidence(item),
    };
    Some(c)
}

pub open spec fn level_keys() -> Seq<Seq<char>> {
    seq!["levelId"@, "level_id"@, "selectedLevelId"@, "selected_level_id"@]
}

pub open spec fn exact_evidence_keys() -> Seq<Seq<char>> {
    seq!["exactEvidence"@, "exact_evidence"@, "evidenceQuote"@, "evidence_quote"@, "quote"@]
}

pub open spec fn missing_keys() -> Seq<Seq<char>> {
    seq!["missingRequirements"@, "missing_requirements"@]
}

pub open spec fn contradiction_keys() -> Seq<Seq<char>> {
    seq!["contradiction"@, "hasContradiction"@]
}

pub open spec fn decision_rationale_keys() -> Seq<Seq<char>> {
    seq!["rationale"@, "reason"@, "explanation"@]
}

/// The texts among the items.
pub open spec fn item_texts(items: Seq<JsonValue>) -> Seq<Seq<char>> {
    filter_map(items, |x: JsonValue| json_text(Some(x)))
}

/// A semantic decision read off a list item: an object with a criterion id
/// and a level id; the evidence unless empty, the missing requirements'
/// texts, the contradiction flag (false unless given) and the rationale.
pub open spec fn spec_decision(item: JsonValue) -> Option<DecisionView> {
    match item {
        JsonValue::Obj(_) => {
            let cid = object_text(item, criterion_id_keys());
            let lid = object_text(item, level_keys());
            let ev = object_text(item, exact_evidence_keys());
            if cid.len() == 0 || lid.len() == 0 {
                None
            } else {
                Some(
                    DecisionView {
                        criterion_id: cid,
                        level_id: lid,
                        exact_evidence: if ev.len() > 0 {
                            Some(ev)
                        } else {
                            None
                        },
                        missing_requirements: match arr_of(get_any(item, missing_keys())) {
                            Some(xs) => item_texts(xs),
                            None => Seq::empty(),
                        },
                        contradiction: bool_of(get_any(item, contradiction_keys())) == Some(true),
                        rationale: object_text(item, decision_rationale_keys()),
                    },
                )
            }
        },
        _ => None,
    }
}

fn texts_of(items: &Vec<JsonValue>) -> (r: Vec<String>)
    ensures
        views(r@) == item_texts(items@),
{
    let ghost f = |x: JsonValue| json_text(Some(x));
    let mut r: Vec<String> = Vec::new();
    let mut i: usize = 0;
    assert(views(r@) =~= Seq::<Seq<char>>::empty());
    while i < items.len()
        invariant
            i <= items@.len(),
            f == (|x: JsonValue| json_text(Some(x))),
            views(r@) == filter_map(items@.take(i as int), f),
        decreases items@.len() - i,
    {
        proof {
            lemma_filter_map_step(items@, f, i as int);
        }
        let ghost before = views(r@);
        match text_at(Some(&items[i])) {
            Some(t) => {
                r.push(t);
                assert(views(r@) =~= before.push(r@.last()@));
            },
            None => {},
        }
        i = i + 1;
    }
    proof {
        lemma_take_all(items@);
    }
    r
}

pub fn semantic_decision(item: &JsonValue) -> (r: Option<SemanticCriterionDecision>)
    ensures
        match r {
            Some(d) => spec_decision(*item) == Some(d@),
            None => spec_decision(*item) is None,
        },
{
    match item {
        JsonValue::Obj(_) => {},
        _ => {
            return None;
        },
    }
    let id_keys = ["criterionId", "criterion_id"];
    assert(keys_view(id_keys@) =~= criterion_id_keys());
    let lkeys = ["levelId", "level_id", "selectedLevelId", "selected_level_id"];
    assert(keys_view(lkeys@) =~= level_keys());
    let criterion_id = object_text_of(item, &id_keys);
    let level_id = object_text_of(item, &lkeys);
    if criterion_id.as_str().is_empty() || level_id.as_str().is_empty() {
        return None;
    }
    let ekeys = ["exactEvidence", "exact_evidence", "evidenceQuote", "evidence_quote", "quote"];
    assert(keys_view(ekeys@) =~= exact_evidence_keys());
    let exact = object_text_of(item, &ekeys);
    let mkeys = ["missingRequirements", "missing_requirements"];
    assert(keys_view(mkeys@) =~= missing_keys());
    let missing_requirements = match json_arr(json_get_any(item, &mkeys)) {
        Some(xs) => texts_of(xs),
        None => Vec::new(),
    };
    let ckeys = ["contradiction", "hasContradiction"];
    assert(keys_view(ckeys@) =~= contradiction_keys());
    let contradiction = match json_bool(json_get_any(item, &ckeys)) {
        Some(b) => b,
        None => false,
    };
    let rkeys = ["rationale", "reason", "explanation"];
    assert(keys_view(rkeys@) =~= decision_rationale_keys());
    let d = SemanticCriterionDecision {
        criterion_id,
        level_id,
        exact_evidence: if exact.as_str().is_empty() {
            None
        } else {
            Some(exact)
        },
        missing_requirements,
        contradiction,
        rationale: object_text_of(item, &rkeys),
    };
    assert(views(d.missing_requirements@) =~= spec_decision(*item).unwrap().missing_requirements);
    Some(d)
}

pub open spec fn score_list_keys() -> Seq<Seq<char>> {
    seq!["criterionScores"@, "criteria"@, "scoringCriteria"@, "scores"@]
}

pub open spec fn decision_list_keys() -> Seq<Seq<char>> {
    seq!["criterionDecisions"@, "decisions"@, "criteria"@]
}

/// The criterion scores of a reply: the objects of its score list.
pub open spec fn spec_criterion_scores(v: JsonValue) -> Seq<CriterionScoreView> {
    filter_map(list_any(v, score_list_keys()), |item: JsonValue| spec_criterion_score(item))
}

/// The semantic decisions of a reply: the readable items of its decision
/// list.
pub open spec fn spec_decisions(v: JsonValue) -> Seq<DecisionView> {
    filter_map(list_any(v, decision_list_keys()), |item: JsonValue| spec_decision(item))
}

fn list_of<'a>(v: &'a JsonValue, keys: &[&str]) -> (r: Option<&'a Vec<JsonValue>>)
    ensures
        match r {
            Some(items) => list_any(*v, keys_view(keys@)) == items@,
            None => list_any(*v, keys_view(keys@)) == Seq::<JsonValue>::empty(),
        },
{
    json_arr(json_get_any(v, keys))
}

pub fn criterion_scores_field(v: &JsonValue) -> (r: Vec<ScoringCriterionScore>)
    ensures
        r@.map_values(|c: ScoringCriterionScore| c@) == spec_criterion_scores(*v),
{
    let ghost f = |item: JsonValue| spec_criterion_score(item);
    let mut r: Vec<ScoringCriterionScore> = Vec::new();
    let keys = ["criterionScores", "criteria", "scoringCriteria", "scores"];
    assert(keys_view(keys@) =~= score_list_keys());
    let items = match list_of(v, &keys) {
        Some(items) => items,
        None => {
            assert(r@.map_values(|c: ScoringCriterionScore| c@) =~= Seq::<CriterionScoreView>::empty());
            return r;
        },
    };
    let mut i: usize = 0;
    while i < items.len()
        invariant
            i <= items@.len(),
            f == (|item: JsonValue| spec_criterion_score(item)),
            r@.map_values(|c: ScoringCriterionScore| c@) == filter_map(items@.take(i as int), f),
        decreases items@.len() - i,
    {
        proof {
            lemma_filter_map_step(items@, f, i as int);
        }
        let ghost before = r@.map_values(|c: ScoringCriterionScore| c@);
        match criterion_score(&items[i]) {
            Some(c) => {
                r.push(c);
                assert(r@.map_values(|c: ScoringCriterionScore| c@) =~= before.push(c@));
            },
            None => {},
        }
        i = i + 1;
    }
    proof {
        lemma_take_all(items@);
    }
    r
}

pub fn decisions_field(v: &JsonValue) -> (r: Vec<SemanticCriterionDecision>)
    ensures
        r@.map_values(|d: SemanticCriterionDecision| d@) == spec_decisions(*v),
{
    let ghost f = |item: JsonValue| spec_decision(item);
    let mut r: Vec<SemanticCriterionDecision> = Vec::new();
    let keys = ["criterionDecisions", "decisions", "criteria"];
    assert(keys_view(keys@) =~= decision_list_keys());
    let items = match list_of(v, &keys) {
        Some(items) => items,
        None => {
            assert(r@.map_values(|d: SemanticCriterionDecision| d@) =~= Seq::<DecisionView>::empty());
            return r;
        },
    };
    let mut i: usize = 0;
    while i < items.len()
        invariant
            i <= items@.len(),
            f == (|item: JsonValue| spec_decision(item)),
            r@.map_values(|d: SemanticCriterionDecision| d@) == filter_map(items@.take(i as int), f),
        decreases items@.len() - i,
    {
        proof {
            lemma_filter_map_step(items@, f, i as int);
        }
        let ghost before = r@.map_values(|d: SemanticCriterionDecision| d@);
        match semantic_decision(&items[i]) {
            Some(d) => {
                r.push(d);
                assert(r@.map_values(|d: SemanticCriterionDecision| d@) =~= before.push(d@));
            },
            None => {},
        }
        i = i + 1;
    }
    proof {
        lemma_take_all(items@);
    }
    r
}

// ---------------------------------------------------------------------------
// Scores the model must not give directly
// ---------------------------------------------------------------------------
pub open spec fn has_field(v: JsonValue, key: Seq<char>) -> bool {
    get(v, key) is Some
}

pub open spec fn direct_list_keys() -> Seq<Seq<char>> {
    seq!["criterionDecisions"@, "criteria"@, "decisions"@, "criterionScores"@]
}

/// Some object of the reply's criterion list has the key.
pub open spec fn some_item_has(v: JsonValue, key: Seq<char>) -> bool {
    let items = list_any(v, direct_list_keys());
    exists|i: int| 0 <= i < items.len() && has_field(#[trigger] items[i], key)
}

pub open spec fn when_field(c: bool, f: Seq<char>) -> Seq<Seq<char>> {
    if c {
        seq![f]
    } else {
        Seq::empty()
    }
}

/// The score fields present in a reply, each once and in byte order: the
/// total-score keys at the top and, prefixed `criterion.`, the score keys of
/// the criterion objects.
pub open spec fn spec_direct_fields(v: JsonValue) -> Seq<Seq<char>> {
    when_field(has_field(v, "awardedScore"@), "awardedScore"@)
        + when_field(has_field(v, "awarded_score"@), "awarded_score"@)
        + when_field(some_item_has(v, "awardedScore"@), "criterion.awardedScore"@)
        + when_field(some_item_has(v, "awarded_score"@), "criterion.awarded_score"@)
        + when_field(some_item_has(v, "points"@), "criterion.points"@)
        + when_field(some_item_has(v, "score"@), "criterion.score"@)
        + when_field(has_field(v, "score"@), "score"@)
        + when_field(has_field(v, "totalScore"@), "totalScore"@)
        + when_field(has_field(v, "total_score"@), "total_score"@)
}

fn push_when(r: &mut Vec<String>, c: bool, f: &str)
    ensures
        views(final(r)@) == views(old(r)@) + when_field(c, f@),
{
    let ghost before = views(r@);
    if c {
        r.push(f.to_owned());
        assert(views(r@) =~= before + when_field(c, f@));
    } else {
        assert(views(r@) =~= before + when_field(c, f@));
    }
}

fn any_item_has(items: Option<&Vec<JsonValue>>, key: &str) -> (r: bool)
    ensures
        r == match items {
            Some(xs) => exists|i: int| 0 <= i < xs@.len() && has_field(#[trigger] xs@[i], key@),
            None => false,
        },
{
    match items {
        Some(xs) => items_have(xs, key),
        None => false,
    }
}

fn items_have(xs: &Vec<JsonValue>, key: &str) -> (r: bool)
    ensures
        r == exists|i: int| 0 <= i < xs@.len() && has_field(#[trigger] xs@[i], key@),
{
    let mut i: usize = 0;
    while i < xs.len()
        invariant
            i <= xs@.len(),
            forall|j: int| 0 <= j < i ==> !has_field(#[trigger] xs@[j], key@),
        decreases xs@.len() - i,
    {
        if json_get(&xs[i], key).is_some() {
            assert(has_field(xs@[i as int], key@));
            return true;
        }
        i = i + 1;
    }
    false
}

/// The score fields present in a reply (`direct_scoring_fields`).
pub fn direct_scoring_fields(v: &JsonValue) -> (r: Vec<String>)
    ensures
        views(r@) == spec_direct_fields(*v),
        strictly_sorted(views(r@)),
{
    proof {
        lemma_direct_fields_sorted(*v);
    }
    let keys = ["criterionDecisions", "criteria", "decisions", "criterionScores"];
    assert(keys_view(keys@) =~= direct_list_keys());
    let items = list_of(v, &keys);
    let mut r: Vec<String> = Vec::new();
    assert(views(r@) =~= Seq::<Seq<char>>::empty());
    push_when(&mut r, json_get(v, "awardedScore").is_some(), "awardedScore");
    assert(views(r@) =~= when_field(has_field(*v, "awardedScore"@), "awardedScore"@));
    push_when(&mut r, json_get(v, "awarded_score").is_some(), "awarded_score");
    push_when(&mut r, any_item_has(items, "awardedScore"), "criterion.awardedScore");
    push_when(&mut r, any_item_has(items, "awarded_score"), "criterion.awarded_score");
    push_when(&mut r, any_item_has(items, "points"), "criterion.points");
    push_when(&mut r, any_item_has(items, "score"), "criterion.score");
    push_when(&mut r, json_get(v, "score").is_some(), "score");
    push_when(&mut r, json_get(v, "totalScore").is_some(), "totalScore");
    push_when(&mut r, json_get(v, "total_score").is_some(), "total_score");
    r
}

// ---------------------------------------------------------------------------
// Schema checks
// ---------------------------------------------------------------------------
pub open spec fn awarded_keys() -> Seq<Seq<char>> {
    seq!["awardedScore"@, "awarded_score"@, "score"@]
}

pub open spec fn rationale_keys() -> Seq<Seq<char>> {
    seq!["rationale"@, "feedback"@, "explanation"@, "reason"@]
}

pub open spec fn review_flag_keys() -> Seq<Seq<char>> {
    seq!["needsReview"@, "needs_review"@]
}

/// The required fields of a scoring reply that it lacks under every
/// spelling, by their canonical names.
pub open spec fn missing_fields(v: JsonValue) -> Seq<Seq<char>> {
    when_field(!has_any(v, awarded_keys()), "awardedScore"@)
        + when_field(!has_any(v, seq!["confidence"@]), "confidence"@)
        + when_field(!has_any(v, rationale_keys()), "rationale"@)
        + when_field(!has_any(v, score_list_keys()), "criterionScores"@)
}

/// The names joined with commas.
pub open spec fn join_comma(s: Seq<Seq<char>>) -> Seq<char>
    decreases s.len(),
{
    if s.len() == 0 {
        Seq::empty()
    } else if s.len() == 1 {
        s[0]
    } else {
        join_comma(s.drop_last()) + ","@ + s.last()
    }
}

/// The first field, by its canonical name, that a criterion object lacks
/// under every spelling.
pub open spec fn first_missing_field(item: JsonValue) -> Option<Seq<char>> {
    if !has_any(item, criterion_id_keys()) {
        Some("criterionId"@)
    } else if !has_any(item, criterion_title_keys()) {
        Some("criterionTitle"@)
    } else if !has_any(item, criterion_max_keys()) {
        Some("criterionMaxScore"@)
    } else if !has_any(item, criterion_awarded_keys()) {
        Some("awardedScore"@)
    } else if !has_any(item, criterion_rationale_keys()) {
        Some("rationale"@)
    } else if !has_any(item, evidence_keys()) {
        Some("evidenceQuote"@)
    } else {
        None
    }
}

/// What is wrong with the criterion at index `i`, if anything.
pub open spec fn criterion_error(item: JsonValue, i: nat) -> Option<Seq<char>> {
    match item {
        JsonValue::Obj(_) => match first_missing_field(item) {
            Some(f) => Some("Notlandırma kriteri "@ + crate::text::decimal(i) + " eksik alan içeriyor: "@ + f),
            None => None,
        },
        _ => Some("Notlandırma kriteri "@ + crate::text::decimal(i) + " JSON nesnesi değil."@),
    }
}

/// The error of the first criterion from index `i` on that has one.
pub open spec fn criteria_error(items: Seq<JsonValue>, i: nat) -> Option<Seq<char>>
    decreases items.len() - i,
{
    if i >= items.len() {
        None
    } else {
        match criterion_error(items[i as int], i) {
            Some(e) => Some(e),
            None => criteria_error(items, i + 1),
        }
    }
}

/// Whether a field other than a flag stands under the review-flag keys.
pub open spec fn review_flag_not_bool(v: JsonValue) -> bool {
    match get_any(v, review_flag_keys()) {
        Some(JsonValue::Bool(_)) => false,
        Some(_) => true,
        None => false,
    }
}

/// The total score the schema check reads: the number under the first
/// awarded-score key present.
pub open spec fn checked_score(v: JsonValue) -> Option<Seq<char>> {
    number_value(get_any(v, awarded_keys()))
}

/// The schema error of a score-based reply, if any. `score_in_range` and
/// `confidence_in_range` are what the range checks say of the total score
/// and of the confidence, where the reply has them.
pub open spec fn spec_scoring_schema_error(v: JsonValue, score_in_range: bool, confidence_in_range: bool) -> Option<
    Seq<char>,
> {
    match v {
        JsonValue::Obj(_) => {
            let missing = missing_fields(v);
            if missing.len() > 0 {
                Some("Notlandırma şeması eksik alan içeriyor: "@ + join_comma(missing))
            } else if !(checked_score(v) is Some && score_in_range) {
                Some("Notlandırma toplam puanı geçerli aralıkta değil."@)
            } else if !(number_text(v, "confidence"@) is Some && confidence_in_range) {
                Some("Notlandırma güven değeri 0..1 aralığında değil."@)
            } else if review_flag_not_bool(v) {
                Some("Notlandırma needsReview alanı boolean değil."@)
            } else {
                match arr_of(get_any(v, score_list_keys())) {
                    Some(items) => criteria_error(items, 0),
                    None => Some("Notlandırma criterionScores alanı dizi değil."@),
                }
            }
        },
        _ => Some("Notlandırma çıktısı JSON nesnesi değil."@),
    }
}

/// The schema error of a reply with semantic decisions, if any.
pub open spec fn spec_semantic_schema_error(v: JsonValue, confidence_in_range: bool) -> Option<Seq<char>> {
    match v {
        JsonValue::Obj(_) => if !(number_text(v, "confidence"@) is Some && confidence_in_range) {
            Some("Semantik notlandırma güven değeri 0..1 aralığında değil."@)
        } else if arr_of(get_any(v, decision_list_keys())) is None {
            Some("Semantik notlandırma criterionDecisions alanı dizi değil."@)
        } else {
            None
        },
        _ => Some("Semantik notlandırma çıktısı JSON nesnesi değil."@),
    }
}

pub(crate) fn join_with_commas(names: &Vec<String>) -> (r: String)
    ensures
        r@ == join_comma(views(names@)),
{
    let ghost vs = views(names@);
    let mut out = String::new();
    let mut i: usize = 0;
    proof {
        reveal_strlit("");
        assert(vs.take(0) =~= Seq::<Seq<char>>::empty());
    }
    while i < names.len()
        invariant
            i <= names@.len(),
            vs == views(names@),
            out@ == join_comma(vs.take(i as int)),
        decreases names@.len() - i,
    {
        assert(vs.take(i + 1).drop_last() =~= vs.take(i as int));
        assert(vs.take(i + 1).last() == names@[i as int]@);
        if i == 0 {
            out = names[i].clone();
        } else {
            out = crate::errors::concat3(out.as_str(), ",", names[i].as_str());
        }
        i = i + 1;
    }
    assert(vs.take(names@.len() as int) =~= vs);
    out
}

fn has_any_of(v: &JsonValue, keys: &[&str]) -> (r: bool)
    ensures
        r == has_any(*v, keys_view(keys@)),
{
    has_key_any(v, keys)
}

/// The first group the criterion object lacks.
fn first_missing_field_of(item: &JsonValue) -> (r: Option<&'static str>)
    ensures
        match r {
            Some(f) => first_missing_field(*item) == Some(f@),
            None => first_missing_field(*item) is None,
        },
{
    let k0 = ["criterionId", "criterion_id"];
    assert(keys_view(k0@) =~= criterion_id_keys());
    if !has_any_of(item, &k0) {
        return Some("criterionId");
    }
    let k1 = [
        "criterionTitle",
        "criterion_title",
        "title",
        "label",
        "criterion",
        "criterionName",
        "criterion_name",
        "name",
    ];
    assert(keys_view(k1@) =~= criterion_title_keys());
    if !has_any_of(item, &k1) {
        return Some("criterionTitle");
    }
    let k2 = ["criterionMaxScore", "criterion_max_score", "maxScore", "max_score", "points"];
    assert(keys_view(k2@) =~= criterion_max_keys());
    if !has_any_of(item, &k2) {
        return Some("criterionMaxScore");
    }
    let k3 = ["awardedScore", "awarded_score", "score", "points"];
    assert(keys_view(k3@) =~= criterion_awarded_keys());
    if !has_any_of(item, &k3) {
        return Some("awardedScore");
    }
    let k4 = ["rationale", "reason", "explanation", "feedback"];
    assert(keys_view(k4@) =~= criterion_rationale_keys());
    if !has_any_of(item, &k4) {
        return Some("rationale");
    }
    let k5 = ["evidenceQuote", "evidence_quote", "quote", "evidence"];
    assert(keys_view(k5@) =~= evidence_keys());
    if !has_any_of(item, &k5) {
        return Some("evidenceQuote");
    }
    None
}

fn criteria_error_of(items: &Vec<JsonValue>) -> (r: Option<String>)
    ensures
        opt_view(r) == criteria_error(items@, 0),
{
    let mut i: usize = 0;
    while i < items.len()
        invariant
            i <= items@.len(),
            criteria_error(items@, 0) == criteria_error(items@, i as nat),
        decreases items@.len() - i,
    {
        let index = crate::text::decimal_string(i as u64);
        match &items[i] {
            JsonValue::Obj(_) => match first_missing_field_of(&items[i]) {
                Some(f) => {
                    let head = crate::errors::concat("Notlandırma kriteri ", index.as_str());
                    return Some(crate::errors::concat3(head.as_str(), " eksik alan içeriyor: ", f));
                },
                None => {},
            },
            _ => {
                return Some(crate::errors::concat3("Notlandırma kriteri ", index.as_str(), " JSON nesnesi değil."));
            },
        }
        i = i + 1;
    }
    None
}

/// The schema error of a score-based reply (`scoring_schema_error`), given
/// what the range checks said of its total score and its confidence.
pub fn scoring_schema_error(v: &JsonValue, score_in_range: bool, confidence_in_range: bool) -> (r: Option<String>)
    ensures
        opt_view(r) == spec_scoring_schema_error(*v, score_in_range, confidence_in_range),
{
    match v {
        JsonValue::Obj(_) => {},
        _ => {
            return Some("Notlandırma çıktısı JSON nesnesi değil.".to_string());
        },
    }
    let ak = ["awardedScore", "awarded_score", "score"];
    assert(keys_view(ak@) =~= awarded_keys());
    let ck = ["confidence"];
    assert(keys_view(ck@) =~= seq!["confidence"@]);
    let rk = ["rationale", "feedback", "explanation", "reason"];
    assert(keys_view(rk@) =~= rationale_keys());
    let sk = ["criterionScores", "criteria", "scoringCriteria", "scores"];
    assert(keys_view(sk@) =~= score_list_keys());
    let mut missing: Vec<String> = Vec::new();
    assert(views(missing@) =~= Seq::<Seq<char>>::empty());
    push_when(&mut missing, !has_any_of(v, &ak), "awardedScore");
    assert(views(missing@) =~= when_field(!has_any(*v, awarded_keys()), "awardedScore"@));
    push_when(&mut missing, !has_any_of(v, &ck), "confidence");
    push_when(&mut missing, !has_any_of(v, &rk), "rationale");
    push_when(&mut missing, !has_any_of(v, &sk), "criterionScores");
    if missing.len() > 0 {
        let names = join_with_commas(&missing);
        return Some(crate::errors::concat("Notlandırma şeması eksik alan içeriyor: ", names.as_str()));
    }
    let score = number_at(json_get_any(v, &ak));
    if !(score.is_some() && score_in_range) {
        return Some("Notlandırma toplam puanı geçerli aralıkta değil.".to_string());
    }
    let confidence_is_number = match json_get(v, "confidence") {
        Some(JsonValue::Num(_)) => true,
        _ => false,
    };
    if !(confidence_is_number && confidence_in_range) {
        return Some("Notlandırma güven değeri 0..1 aralığında değil.".to_string());
    }
    let fk = ["needsReview", "needs_review"];
    assert(keys_view(fk@) =~= review_flag_keys());
    match json_get_any(v, &fk) {
        Some(JsonValue::Bool(_)) => {},
        Some(_) => {
            return Some("Notlandırma needsReview alanı boolean değil.".to_string());
        },
        None => {},
    }
    match json_arr(json_get_any(v, &sk)) {
        Some(items) => criteria_error_of(items),
        None => Some("Notlandırma criterionScores alanı dizi değil.".to_string()),
    }
}

/// The schema error of a reply with semantic decisions
/// (`semantic_scoring_schema_error`), given what the range check said of
/// its confidence.
pub fn semantic_scoring_schema_error(v: &JsonValue, confidence_in_range: bool) -> (r: Option<String>)
    ensures
        opt_view(r) == spec_semantic_schema_error(*v, confidence_in_range),
{
    match v {
        JsonValue::Obj(_) => {},
        _ => {
            return Some("Semantik notlandırma çıktısı JSON nesnesi değil.".to_string());
        },
    }
    let confidence_is_number = match json_get(v, "confidence") {
        Some(JsonValue::Num(_)) => true,
        _ => false,
    };
    if !(confidence_is_number && confidence_in_range) {
        return Some("Semantik notlandırma güven değeri 0..1 aralığında değil.".to_string());
    }
    let keys = ["criterionDecisions", "decisions", "criteria"];
    assert(keys_view(keys@) =~= decision_list_keys());
    match json_arr(json_get_any(v, &keys)) {
        Some(_) => None,
        None => Some("Semantik notlandırma criterionDecisions alanı dizi değil.".to_string()),
    }
}

// ---------------------------------------------------------------------------
// The outcome
// ---------------------------------------------------------------------------
/// What a scoring reply gave. The total score and the confidence are the
/// number texts the model wrote, where it wrote them (none counts as zero).
#[derive(Debug)]
pub struct ScoringOutput {
    pub awarded_score: Option<String>,
    pub confidence: Option<String>,
    pub rationale: String,
    pub teacher_visible_explanation: String,
    pub needs_review: bool,
    pub warnings: Vec<String>,
    pub criterion_scores: Vec<ScoringCriterionScore>,
    pub criterion_decisions: Vec<SemanticCriterionDecision>,
    pub direct_score_fields: Vec<String>,
    pub direct_score_rejected: bool,
}

/// The scoring read, with the JSON it came from, the schema or reader error,
/// the rationale that could be kept and how the reply was read.
#[derive(Debug)]
pub struct ScoringParseOutcome {
    pub output: ScoringOutput,
    pub parsed_json: Option<JsonValue>,
    pub parse_error: Option<String>,
    pub salvaged_rationale: Option<String>,
    pub parse_strategy: String,
}

pub struct ScoringOutcomeView {
    pub awarded_score: Option<Seq<char>>,
    pub confidence: Option<Seq<char>>,
    pub rationale: Seq<char>,
    pub teacher_visible_explanation: Seq<char>,
    pub needs_review: bool,
    pub warnings: Seq<Seq<char>>,
    pub criterion_scores: Seq<CriterionScoreView>,
    pub criterion_decisions: Seq<DecisionView>,
    pub direct_score_fields: Seq<Seq<char>>,
    pub direct_score_rejected: bool,
    pub parsed_json: Option<JsonValue>,
    pub parse_error: Option<Seq<char>>,
    pub salvaged_rationale: Option<Seq<char>>,
    pub parse_strategy: Seq<char>,
}

impl View for ScoringParseOutcome {
    type V = ScoringOutcomeView;

    open spec fn view(&self) -> ScoringOutcomeView {
        ScoringOutcomeView {
            awarded_score: opt_view(self.output.awarded_score),
            confidence: opt_view(self.output.confidence),
            rationale: self.output.rationale@,
            teacher_visible_explanation: self.output.teacher_visible_explanation@,
            needs_review: self.output.needs_review,
            warnings: views(self.output.warnings@),
            criterion_scores: self.output.criterion_scores@.map_values(|c: ScoringCriterionScore| c@),
            criterion_decisions: self.output.criterion_decisions@.map_values(
                |d: SemanticCriterionDecision| d@,
            ),
            direct_score_fields: views(self.output.direct_score_fields@),
            direct_score_rejected: self.output.direct_score_rejected,
            parsed_json: self.parsed_json,
            parse_error: opt_view(self.parse_error),
            salvaged_rationale: opt_view(self.salvaged_rationale),
            parse_strategy: self.parse_strategy@,
        }
    }
}

/// The overall rationale: the string under the first rationale key
/// present, trimmed; empty otherwise.
pub open spec fn spec_rationale(v: JsonValue) -> Seq<char> {
    match str_of(get_any(v, rationale_keys())) {
        Some(t) => trim(t),
        None => Seq::empty(),
    }
}

/// How the reply was read: by semantic levels where it has decisions,
/// otherwise by the first score list key it has.
pub open spec fn spec_strategy(v: JsonValue) -> Seq<char> {
    if spec_decisions(v).len() > 0 {
        "semantic_criterion_levels"@
    } else if has_field(v, "criterionScores"@) {
        "criterion_scores"@
    } else if has_field(v, "criteria"@) {
        "criteria"@
    } else if has_field(v, "scores"@) {
        "scores"@
    } else {
        "fallback"@
    }
}

/// The schema error: that of a semantic reply where it has decisions, of a
/// score-based reply otherwise.
pub open spec fn spec_schema_error(v: JsonValue, score_in_range: bool, confidence_in_range: bool) -> Option<
    Seq<char>,
> {
    if spec_decisions(v).len() > 0 {
        spec_semantic_schema_error(v, confidence_in_range)
    } else {
        spec_scoring_schema_error(v, score_in_range, confidence_in_range)
    }
}

/// The outcome of a reply read as JSON, given what the range checks said.
/// Direct scores are rejected where the reply has semantic decisions; the
/// reply needs review where it says so, where it gives no rationale, no
/// criterion scores and no decisions, where direct scores were rejected or
/// where it breaks the schema.
pub open spec fn spec_scored(v: JsonValue, score_in_range: bool, confidence_in_range: bool) -> ScoringOutcomeView {
    let decisions = spec_decisions(v);
    let scores = spec_criterion_scores(v);
    let direct = spec_direct_fields(v);
    let rejected = decisions.len() > 0 && direct.len() > 0;
    let rationale = spec_rationale(v);
    let error = spec_schema_error(v, score_in_range, confidence_in_range);
    ScoringOutcomeView {
        awarded_score: first_number(v, awarded_keys()),
        confidence: number_text(v, "confidence"@),
        rationale: rationale,
        teacher_visible_explanation: rationale,
        needs_review: bool_of(get_any(v, review_flag_keys())) == Some(true) || rationale.len() == 0 || (
        scores.len() == 0 && decisions.len() == 0) || rejected || error is Some,
        warnings: string_array_field(v, "warnings"@),
        criterion_scores: scores,
        criterion_decisions: decisions,
        direct_score_fields: direct,
        direct_score_rejected: rejected,
        parsed_json: Some(v),
        parse_error: error,
        salvaged_rationale: if rationale.len() == 0 {
            None
        } else {
            Some(rationale)
        },
        parse_strategy: spec_strategy(v),
    }
}

/// The outcome where the reply could not be read as JSON: nothing read,
/// flagged for review with a warning, the reader's error kept.
pub open spec fn spec_parse_failed(error: Seq<char>) -> ScoringOutcomeView {
    ScoringOutcomeView {
        awarded_score: None,
        confidence: None,
        rationale: Seq::empty(),
        teacher_visible_explanation: Seq::empty(),
        needs_review: true,
        warnings: seq!["scoring_json_parse_failed"@],
        criterion_scores: Seq::empty(),
        criterion_decisions: Seq::empty(),
        direct_score_fields: Seq::empty(),
        direct_score_rejected: false,
        parsed_json: None,
        parse_error: Some(error),
        salvaged_rationale: None,
        parse_strategy: "parse_failed"@,
    }
}

pub open spec fn spec_scoring_outcome(out: Result<JsonValue, String>, score_in_range: bool, confidence_in_range: bool) -> ScoringOutcomeView {
    match out {
        Ok(v) => spec_scored(v, score_in_range, confidence_in_range),
        Err(m) => spec_parse_failed(m@),
    }
}

/// The outcome of a reply read as JSON, given what the range checks said of
/// its total score and of its confidence.
pub fn scoring_outcome(value: JsonValue, score_in_range: bool, confidence_in_range: bool) -> (r: ScoringParseOutcome)
    ensures
        r@ == spec_scored(value, score_in_range, confidence_in_range),
        r.output.needs_review <==> (bool_of(get_any(value, seq!["needsReview"@, "needs_review"@])) == Some(true)
            || r.output.rationale@.len() == 0 || (r.output.criterion_scores@.len() == 0
            && r.output.criterion_decisions@.len() == 0) || r.output.direct_score_rejected
            || r.parse_error is Some),
        r.output.direct_score_rejected <==> (r.output.criterion_decisions@.len() > 0
            && r.output.direct_score_fields@.len() > 0),
{
    let ak = ["awardedScore", "awarded_score", "score"];
    assert(keys_view(ak@) =~= awarded_keys());
    let awarded_score = first_number_of(&value, &ak);
    let direct_score_fields = direct_scoring_fields(&value);
    let criterion_decisions = decisions_field(&value);
    let confidence = match json_get(&value, "confidence") {
        Some(JsonValue::Num(n)) => Some(n.text.clone()),
        _ => None,
    };
    let criterion_scores = criterion_scores_field(&value);
    let rk = ["rationale", "feedback", "explanation", "reason"];
    assert(keys_view(rk@) =~= rationale_keys());
    let rationale = match json_str(json_get_any(&value, &rk)) {
        Some(t) => trim_str(t.as_str()),
        None => String::new(),
    };
    let warnings = json_string_array(&value, "warnings");
    let semantic = criterion_decisions.len() > 0;
    let parse_strategy = if semantic {
        "semantic_criterion_levels".to_string()
    } else if json_get(&value, "criterionScores").is_some() {
        "criterion_scores".to_string()
    } else if json_get(&value, "criteria").is_some() {
        "criteria".to_string()
    } else if json_get(&value, "scores").is_some() {
        "scores".to_string()
    } else {
        "fallback".to_string()
    };
    let direct_score_rejected = semantic && direct_score_fields.len() > 0;
    let schema_error = if semantic {
        semantic_scoring_schema_error(&value, confidence_in_range)
    } else {
        scoring_schema_error(&value, score_in_range, confidence_in_range)
    };
    let fk = ["needsReview", "needs_review"];
    assert(keys_view(fk@) =~= review_flag_keys());
    let flagged = match json_bool(json_get_any(&value, &fk)) {
        Some(b) => b,
        None => false,
    };
    let needs_review = flagged || rationale.as_str().is_empty() || (criterion_scores.len() == 0 && !semantic)
        || direct_score_rejected || schema_error.is_some();
    let salvaged_rationale = if rationale.as_str().is_empty() {
        None
    } else {
        Some(rationale.clone())
    };
    proof {
        reveal_strlit("");
    }
    let output = ScoringOutput {
        awarded_score,
        confidence,
        rationale: rationale.clone(),
        teacher_visible_explanation: rationale,
        needs_review,
        warnings,
        criterion_scores,
        criterion_decisions,
        direct_score_fields,
        direct_score_rejected,
    };
    ScoringParseOutcome {
        output,
        parsed_json: Some(value),
        parse_error: schema_error,
        salvaged_rationale,
        parse_strategy,
    }
}

/// The outcome where the reply could not be read as JSON.
pub fn scoring_parse_failed(error: String) -> (r: ScoringParseOutcome)
    ensures
        r@ == spec_parse_failed(error@),
{
    let output = ScoringOutput {
        awarded_score: None,
        confidence: None,
        rationale: String::new(),
        teacher_visible_explanation: String::new(),
        needs_review: true,
        warnings: vec!["scoring_json_parse_failed".to_string()],
        criterion_scores: Vec::new(),
        criterion_decisions: Vec::new(),
        direct_score_fields: Vec::new(),
        direct_score_rejected: false,
    };
    proof {
        reveal_strlit("");
    }
    let r = ScoringParseOutcome {
        output,
        parsed_json: None,
        parse_error: Some(error),
        salvaged_rationale: None,
        parse_strategy: "parse_failed".to_string(),
    };
    assert(views(r.output.warnings@) =~= seq!["scoring_json_parse_failed"@]);
    assert(views(r.output.direct_score_fields@) =~= Seq::<Seq<char>>::empty());
    assert(r.output.criterion_scores@.map_values(|c: ScoringCriterionScore| c@) =~= Seq::<CriterionScoreView>::empty());
    assert(r.output.criterion_decisions@.map_values(|d: SemanticCriterionDecision| d@) =~= Seq::<DecisionView>::empty());
    r
}

/// What a range check said of a number: its answer on that number's text,
/// where there is a number (otherwise the answer is never used).
pub open spec fn check_answer<P: Fn(&str) -> bool>(check: P, number: Option<Seq<char>>, answer: bool) -> bool {
    match number {
        Some(t) => exists|s: &str| s@ == t && #[trigger] check.ensures((s,), answer),
        None => true,
    }
}

/// What the two range checks said of a reply read as JSON.
pub open spec fn range_answers<S: Fn(&str) -> bool, C: Fn(&str) -> bool>(
    out: Result<JsonValue, String>,
    score_in_range: S,
    confidence_in_range: C,
    score_answer: bool,
    confidence_answer: bool,
) -> bool {
    match out {
        Ok(v) => check_answer(score_in_range, checked_score(v), score_answer) && check_answer(
            confidence_in_range,
            number_text(v, "confidence"@),
            confidence_answer,
        ),
        Err(_) => true,
    }
}

fn ask_check<P: Fn(&str) -> bool>(check: &P, number: &Option<String>) -> (r: bool)
    requires
        forall|s: &str| check.requires((s,)),
    ensures
        check_answer(*check, opt_view(*number), r),
{
    match number {
        Some(t) => check(t.as_str()),
        None => false,
    }
}

/// Reads a scoring reply: its JSON text goes to `read_json`; a reply that
/// the reader refuses gives the parse-failed outcome. The total score (a
/// number or a number literal in a string) goes to `score_in_range`, which
/// says whether it is finite and within `0..=` the question's maximum, and
/// the confidence number to `confidence_in_range`, which says whether it is
/// finite and within `0..=1`.
pub fn parse_scoring_output<
    F: Fn(&str) -> Result<JsonValue, String>,
    S: Fn(&str) -> bool,
    C: Fn(&str) -> bool,
>(raw: &str, read_json: &F, score_in_range: &S, confidence_in_range: &C) -> (r: ScoringParseOutcome)
    requires
        forall|s: &str| read_json.requires((s,)),
        forall|s: &str| score_in_range.requires((s,)),
        forall|s: &str| confidence_in_range.requires((s,)),
    ensures
        exists|s: &str, out: Result<JsonValue, String>|
            s@ == spec_json_candidate(raw@) && #[trigger] read_json.ensures((s,), out) && exists|a: bool, b: bool|
                #[trigger] range_answers(out, *score_in_range, *confidence_in_range, a, b) && r@
                    == spec_scoring_outcome(out, a, b),
{
    let candidate = json_candidate(raw);
    let out = read_json(candidate.as_str());
    match out {
        Ok(value) => {
            let ak = ["awardedScore", "awarded_score", "score"];
            assert(keys_view(ak@) =~= awarded_keys());
            let score = number_at(json_get_any(&value, &ak));
            let confidence = match json_get(&value, "confidence") {
                Some(JsonValue::Num(n)) => Some(n.text.clone()),
                _ => None,
            };
            let a = ask_check(score_in_range, &score);
            let b = ask_check(confidence_in_range, &confidence);
            let ghost v = value;
            let r = scoring_outcome(value, a, b);
            assert(range_answers(Ok::<JsonValue, String>(v), *score_in_range, *confidence_in_range, a, b));
            r
        },
        Err(message) => {
            let ghost m = message;
            let r = scoring_parse_failed(message);
            assert(range_answers(Err::<JsonValue, String>(m), *score_in_range, *confidence_in_range, false, false));
            r
        },
    }
}

/// The score field names in the order the reader lists them.
pub open spec fn direct_field_names() -> Seq<Seq<char>> {
    seq![
        "awardedScore"@,
        "awarded_score"@,
        "criterion.awardedScore"@,
        "criterion.awarded_score"@,
        "criterion.points"@,
        "criterion.score"@,
        "score"@,
        "totalScore"@,
        "total_score"@,
    ]
}

proof fn lemma_direct_names_ordered()
    ensures
        forall|i: int| 0 <= i < 8 ==> text_lt(#[trigger] direct_field_names()[i], direct_field_names()[i + 1]),
{
    reveal_strlit("awardedScore");
    reveal_strlit("awarded_score");
    reveal_strlit("criterion.awardedScore");
    reveal_strlit("criterion.awarded_score");
    reveal_strlit("criterion.points");
    reveal_strlit("criterion.score");
    reveal_strlit("score");
    reveal_strlit("totalScore");
    reveal_strlit("total_score");
    reveal_with_fuel(text_lt, 20);
    assert(text_lt("awardedScore"@, "awarded_score"@));
    assert(text_lt("awarded_score"@, "criterion.awardedScore"@));
    assert(text_lt("criterion.awardedScore"@, "criterion.awarded_score"@));
    assert(text_lt("criterion.awarded_score"@, "criterion.points"@));
    assert(text_lt("criterion.points"@, "criterion.score"@));
    assert(text_lt("criterion.score"@, "score"@));
    assert(text_lt("score"@, "totalScore"@));
    assert(text_lt("totalScore"@, "total_score"@));
}

proof fn lemma_extend_sorted(a: Seq<Seq<char>>, c: bool, x: Seq<char>, y: Seq<char>)
    requires
        strictly_sorted(a),
        forall|i: int| 0 <= i < a.len() ==> text_lt(#[trigger] a[i], x),
        text_lt(x, y),
    ensures
        strictly_sorted(a + when_field(c, x)),
        forall|i: int| 0 <= i < (a + when_field(c, x)).len() ==> text_lt(#[trigger] (a + when_field(c, x))[i], y),
{
    let b = a + when_field(c, x);
    assert forall|i: int| 0 <= i < b.len() implies text_lt(#[trigger] b[i], y) by {
        if i < a.len() {
            assert(b[i] == a[i]);
            lemma_text_lt_transitive(a[i], x, y);
        } else {
            assert(b[i] == x);
        }
    }
    assert forall|i: int, j: int| 0 <= i < j < b.len() implies text_lt(#[trigger] b[i], #[trigger] b[j]) by {
        if j < a.len() {
            assert(b[i] == a[i] && b[j] == a[j]);
        } else {
            assert(b[j] == x && b[i] == a[i]);
        }
    }
}

/// The score fields a reply gives come sorted, each once.
pub proof fn lemma_direct_fields_sorted(v: JsonValue)
    ensures
        strictly_sorted(spec_direct_fields(v)),
{
    lemma_direct_names_ordered();
    let n = direct_field_names();
    assert(text_lt(n[7], n[8]));
    let last = n[8] + seq!['~'];
    assert(text_lt(n[8], last)) by {
        reveal_strlit("total_score");
        reveal_with_fuel(text_lt, 13);
    }
    let a0 = Seq::<Seq<char>>::empty();
    let a1 = a0 + when_field(has_field(v, n[0]), n[0]);
    lemma_extend_sorted(a0, has_field(v, n[0]), n[0], n[1]);
    let a2 = a1 + when_field(has_field(v, n[1]), n[1]);
    lemma_extend_sorted(a1, has_field(v, n[1]), n[1], n[2]);
    let a3 = a2 + when_field(some_item_has(v, "awardedScore"@), n[2]);
    lemma_extend_sorted(a2, some_item_has(v, "awardedScore"@), n[2], n[3]);
    let a4 = a3 + when_field(some_item_has(v, "awarded_score"@), n[3]);
    lemma_extend_sorted(a3, some_item_has(v, "awarded_score"@), n[3], n[4]);
    let a5 = a4 + when_field(some_item_has(v, "points"@), n[4]);
    lemma_extend_sorted(a4, some_item_has(v, "points"@), n[4], n[5]);
    let a6 = a5 + when_field(some_item_has(v, "score"@), n[5]);
    lemma_extend_sorted(a5, some_item_has(v, "score"@), n[5], n[6]);
    let a7 = a6 + when_field(has_field(v, n[6]), n[6]);
    lemma_extend_sorted(a6, has_field(v, n[6]), n[6], n[7]);
    let a8 = a7 + when_field(has_field(v, n[7]), n[7]);
    lemma_extend_sorted(a7, has_field(v, n[7]), n[7], n[8]);
    let a9 = a8 + when_field(has_field(v, n[8]), n[8]);
    lemma_extend_sorted(a8, has_field(v, n[8]), n[8], last);
    assert(a1 =~= when_field(has_field(v, "awardedScore"@), "awardedScore"@));
    assert(spec_direct_fields(v) == a9);
}

/// When a scoring reply read as JSON goes to review: exactly when the model
/// asks for it (its `needsReview` or `needs_review` flag is `true`), when it
/// gives no rationale, when it gives neither criterion scores nor semantic
/// decisions, when its direct scores are rejected, or when it breaks the
/// schema. Direct scores are rejected exactly when the reply makes semantic
/// decisions and also gives scores directly. A rationale is kept exactly
/// when there is one, and it is what the teacher sees. The reply is read
/// by semantic levels exactly when it makes semantic decisions.
pub proof fn lemma_scoring_review(v: JsonValue, score_in_range: bool, confidence_in_range: bool)
    ensures
        ({
            let o = spec_scored(v, score_in_range, confidence_in_range);
            &&& o.needs_review <==> (bool_of(get_any(v, seq!["needsReview"@, "needs_review"@])) == Some(true)
                || o.rationale.len() == 0 || (o.criterion_scores.len() == 0 && o.criterion_decisions.len() == 0)
                || o.direct_score_rejected || o.parse_error is Some)
            &&& o.direct_score_rejected <==> (o.criterion_decisions.len() > 0 && o.direct_score_fields.len() > 0)
            &&& o.teacher_visible_explanation == o.rationale
            &&& (o.salvaged_rationale is Some <==> o.rationale.len() > 0)
            &&& o.salvaged_rationale is Some ==> o.salvaged_rationale == Some(o.rationale)
            &&& o.parsed_json == Some(v)
            &&& (o.parse_strategy == "semantic_criterion_levels"@ <==> o.criterion_decisions.len() > 0)
        }),
{
    assert(review_flag_keys() =~= seq!["needsReview"@, "needs_review"@]);
    reveal_strlit("semantic_criterion_levels");
    reveal_strlit("criterion_scores");
    reveal_strlit("criteria");
    reveal_strlit("scores");
    reveal_strlit("fallback");
    assert("semantic_criterion_levels"@.len() == 25);
    assert("criterion_scores"@.len() == 16);
    assert("criteria"@.len() == 8);
    assert("scores"@.len() == 6);
    assert("fallback"@.len() == 8);
}

/// A reply that could not be read as JSON always goes to review, keeps the
/// reader's error and gives no scores.
pub proof fn lemma_unreadable_scoring_reply(out: Result<JsonValue, String>, a: bool, b: bool)
    requires
        out is Err,
    ensures
        ({
            let o = spec_scoring_outcome(out, a, b);
            &&& o.needs_review
            &&& o.parse_error == Some(out->Err_0@)
            &&& o.awarded_score is None
            &&& o.criterion_scores.len() == 0
            &&& o.criterion_decisions.len() == 0
            &&& o.parsed_json is None
        }),
{
}

} // verus!
