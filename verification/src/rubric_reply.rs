//! Reading a rubric the model drafted: each question with its number,
//! maximum points, expected answer, key concepts and criteria, under the
//! many field spellings models use, with a warning for every alias that
//! was normalised. A truncated reply keeps the questions that came through
//! whole.
use vstd::prelude::*;
use crate::errors::{app_error, AppError, AppErrorCode};
use crate::json::{
    arr_of, get, get_any, json_arr, json_get, json_get_any, json_raw_strings, json_str,
    json_trimmed_strings, json_u64, keys_view, nonempty_trimmed, nonempty_trimmed_str, opt_view,
    raw_strings, str_of, trimmed_strings, u64_of, views, JsonNumber, JsonValue,
};
use crate::model_text::{
    balanced_candidate, balanced_from, first_open, first_open_index, normalize_alias_warning,
    spec_strip_reasoning, strip_reasoning_and_fences,
};
use crate::seqs::{filter_map, lemma_filter_map_step, lemma_take_all};
use crate::text::{trim, trim_start, trim_start_chars, trim_str};

verus! {

/// A criterion of a drafted rubric; its points are the JSON number as the
/// model wrote it, where it wrote one.
#[derive(Debug)]
pub struct RubricImportCriterion {
    pub label: String,
    pub description: String,
    pub points: Option<String>,
}

pub struct RubricImportCriterionView {
    pub label: Seq<char>,
    pub description: Seq<char>,
    pub points: Option<Seq<char>>,
}

impl View for RubricImportCriterion {
    type V = RubricImportCriterionView;

    open spec fn view(&self) -> RubricImportCriterionView {
        RubricImportCriterionView {
            label: self.label@,
            description: self.description@,
            points: opt_view(self.points),
        }
    }
}

/// A question of a drafted rubric.
#[derive(Debug)]
pub struct RubricImportQuestion {
    pub question_number: u32,
    pub max_points: Option<String>,
    pub expected_answer: Option<String>,
    pub key_concepts: Vec<String>,
    pub criteria: Vec<RubricImportCriterion>,
    pub partial_credit_hints: Vec<String>,
    pub zero_score_conditions: Vec<String>,
    pub common_mistakes: Vec<String>,
    pub warnings: Vec<String>,
}

pub struct RubricImportQuestionView {
    pub question_number: u32,
    pub max_points: Option<Seq<char>>,
    pub expected_answer: Option<Seq<char>>,
    pub key_concepts: Seq<Seq<char>>,
    pub criteria: Seq<RubricImportCriterionView>,
    pub partial_credit_hints: Seq<Seq<char>>,
    pub zero_score_conditions: Seq<Seq<char>>,
    pub common_mistakes: Seq<Seq<char>>,
    pub warnings: Seq<Seq<char>>,
}

impl View for RubricImportQuestion {
    type V = RubricImportQuestionView;

    open spec fn view(&self) -> RubricImportQuestionView {
        RubricImportQuestionView {
            question_number: self.question_number,
            max_points: opt_view(self.max_points),
            expected_answer: opt_view(self.expected_answer),
            key_concepts: views(self.key_concepts@),
            criteria: self.criteria@.map_values(|c: RubricImportCriterion| c@),
            partial_credit_hints: views(self.partial_credit_hints@),
            zero_score_conditions: views(self.zero_score_conditions@),
            common_mistakes: views(self.common_mistakes@),
            warnings: views(self.warnings@),
        }
    }
}

/// The questions of a drafted rubric.
#[derive(Debug)]
pub struct RubricImportPayload {
    pub questions: Vec<RubricImportQuestion>,
}

pub open spec fn qviews(v: Seq<RubricImportQuestion>) -> Seq<RubricImportQuestionView> {
    v.map_values(|q: RubricImportQuestion| q@)
}

pub open spec fn payload_view(p: RubricImportPayload) -> Seq<RubricImportQuestionView> {
    qviews(p.questions@)
}

// ---------------------------------------------------------------------------
// Field spellings
// ---------------------------------------------------------------------------
pub open spec fn alias_warning(field: Seq<char>, alias: Seq<char>) -> Seq<char> {
    field + "_alias:"@ + alias
}

/// A warning for each of the aliases that the object uses, in order.
pub open spec fn alias_warnings(item: JsonValue, field: Seq<char>, aliases: Seq<Seq<char>>) -> Seq<Seq<char>>
    decreases aliases.len(),
{
    if aliases.len() == 0 {
        Seq::empty()
    } else {
        let r = alias_warnings(item, field, aliases.drop_last());
        if get(item, aliases.last()) is Some {
            r.push(alias_warning(field, aliases.last()))
        } else {
            r
        }
    }
}

/// The list under the first of `names` whose value is a list.
pub open spec fn first_list(item: JsonValue, names: Seq<Seq<char>>) -> Option<Seq<JsonValue>>
    decreases names.len(),
{
    if names.len() == 0 {
        None
    } else {
        match arr_of(get(item, names[0])) {
            Some(items) => Some(items),
            None => first_list(item, names.drop_first()),
        }
    }
}

/// The trimmed, non-empty strings of the first list among `names`.
pub open spec fn rubric_strings(item: JsonValue, names: Seq<Seq<char>>) -> Seq<Seq<char>> {
    match first_list(item, names) {
        Some(items) => trimmed_strings(items),
        None => Seq::empty(),
    }
}

/// A string under the first present of `keys`, trimmed; empty where there
/// is none.
pub open spec fn trimmed_or_empty(item: JsonValue, keys: Seq<Seq<char>>) -> Seq<char> {
    match str_of(get_any(item, keys)) {
        Some(s) => trim(s),
        None => Seq::empty(),
    }
}

pub open spec fn number_text_of(o: Option<JsonValue>) -> Option<Seq<char>> {
    match o {
        Some(JsonValue::Num(n)) => Some(n.text@),
        _ => None,
    }
}

pub open spec fn number_of(o: Option<JsonValue>) -> Option<JsonNumber> {
    match o {
        Some(JsonValue::Num(n)) => Some(n),
        _ => None,
    }
}

// ---------------------------------------------------------------------------
// Criteria
// ---------------------------------------------------------------------------
pub open spec fn label_keys() -> Seq<Seq<char>> {
    seq!["label"@, "name"@, "kriter"@]
}

pub open spec fn description_keys() -> Seq<Seq<char>> {
    seq!["description"@, "açıklama"@, "aciklama"@]
}

pub open spec fn points_keys() -> Seq<Seq<char>> {
    seq!["points"@, "puan"@, "score"@, "point"@]
}

/// A criterion: an object's label and description (trimmed, empty where
/// missing) and points.
pub open spec fn spec_criterion(c: JsonValue) -> Option<RubricImportCriterionView> {
    match c {
        JsonValue::Obj(_) => Some(
            RubricImportCriterionView {
                label: trimmed_or_empty(c, label_keys()),
                description: trimmed_or_empty(c, description_keys()),
                points: number_text_of(get_any(c, points_keys())),
            },
        ),
        _ => None,
    }
}

/// The alias warnings of one criterion.
pub open spec fn criterion_alias_warnings(c: JsonValue) -> Seq<Seq<char>> {
    alias_warnings(c, "criterion.label"@, seq!["name"@, "kriter"@]) + alias_warnings(
        c,
        "criterion.points"@,
        seq!["puan"@, "score"@],
    )
}

/// The alias warnings of the criteria that are objects, in order.
pub open spec fn criteria_warnings(items: Seq<JsonValue>) -> Seq<Seq<char>>
    decreases items.len(),
{
    if items.len() == 0 {
        Seq::empty()
    } else {
        let r = criteria_warnings(items.drop_last());
        match items.last() {
            JsonValue::Obj(_) => r + criterion_alias_warnings(items.last()),
            _ => r,
        }
    }
}

/// The criteria of a question and their warnings; a warning alone where
/// the criteria are not a list.
pub open spec fn spec_normalize_criteria(v: JsonValue) -> (Seq<RubricImportCriterionView>, Seq<Seq<char>>) {
    match v {
        JsonValue::Arr(items) => (
            filter_map(items@, |c: JsonValue| spec_criterion(c)),
            criteria_warnings(items@),
        ),
        _ => (Seq::empty(), seq!["criteria_not_array"@]),
    }
}

fn push_alias_warnings(w: &mut Vec<String>, item: &JsonValue, field: &str, aliases: &[&str])
    ensures
        views(final(w)@) == views(old(w)@) + alias_warnings(*item, field@, keys_view(aliases@)),
{
    let ghost keys = keys_view(aliases@);
    let mut i: usize = 0;
    assert(views(w@) =~= views(old(w)@) + alias_warnings(*item, field@, keys.take(0)));
    while i < aliases.len()
        invariant
            i <= aliases@.len(),
            keys == keys_view(aliases@),
            views(w@) == views(old(w)@) + alias_warnings(*item, field@, keys.take(i as int)),
        decreases aliases@.len() - i,
    {
        assert(keys.take(i + 1).drop_last() =~= keys.take(i as int));
        assert(keys.take(i + 1).last() == aliases@[i as int]@);
        if json_get(item, aliases[i]).is_some() {
            let ghost before = views(w@);
            w.push(normalize_alias_warning(field, aliases[i]));
            assert(views(w@) =~= before.push(alias_warning(field@, aliases@[i as int]@)));
        }
        i = i + 1;
    }
    assert(keys.take(aliases@.len() as int) =~= keys);
}

fn trimmed_or_empty_of(item: &JsonValue, keys: &[&str]) -> (r: String)
    ensures
        r@ == trimmed_or_empty(*item, keys_view(keys@)),
{
    match json_str(json_get_any(item, keys)) {
        Some(s) => trim_str(s.as_str()),
        None => {
            let r = String::new();
            assert(trim(r@) =~= Seq::<char>::empty());
            r
        },
    }
}

fn number_text_at(v: Option<&JsonValue>) -> (r: Option<String>)
    ensures
        opt_view(r) == number_text_of(crate::json::deref_opt(v)),
{
    match v {
        Some(JsonValue::Num(n)) => Some(n.text.clone()),
        _ => None,
    }
}

fn criterion(c: &JsonValue) -> (r: Option<RubricImportCriterion>)
    ensures
        match r {
            Some(x) => spec_criterion(*c) == Some(x@),
            None => spec_criterion(*c) is None,
        },
{
    match c {
        JsonValue::Obj(_) => {},
        _ => {
            return None;
        },
    }
    let lkeys = ["label", "name", "kriter"];
    let dkeys = ["description", "açıklama", "aciklama"];
    let pkeys = ["points", "puan", "score", "point"];
    assert(keys_view(lkeys@) == label_keys());
    assert(keys_view(dkeys@) == description_keys());
    assert(keys_view(pkeys@) == points_keys());
    Some(
        RubricImportCriterion {
            label: trimmed_or_empty_of(c, &lkeys),
            description: trimmed_or_empty_of(c, &dkeys),
            points: number_text_at(json_get_any(c, &pkeys)),
        },
    )
}

/// The criteria of a question and the warnings they raise.
pub fn normalize_rubric_criteria(v: &JsonValue) -> (r: (Vec<RubricImportCriterion>, Vec<String>))
    ensures
        (r.0@.map_values(|c: RubricImportCriterion| c@), views(r.1@)) == spec_normalize_criteria(*v),
{
    let items = match v {
        JsonValue::Arr(items) => items,
        _ => {
            let w = vec!["criteria_not_array".to_string()];
            let c: Vec<RubricImportCriterion> = Vec::new();
            assert(views(w@) =~= seq!["criteria_not_array"@]);
            assert(c@.map_values(|c: RubricImportCriterion| c@) =~= Seq::<RubricImportCriterionView>::empty());
            return (c, w);
        },
    };
    let ghost f = |c: JsonValue| spec_criterion(c);
    let mut criteria: Vec<RubricImportCriterion> = Vec::new();
    let mut warnings: Vec<String> = Vec::new();
    let mut i: usize = 0;
    while i < items.len()
        invariant
            i <= items@.len(),
            *v == JsonValue::Arr(*items),
            f == (|c: JsonValue| spec_criterion(c)),
            criteria@.map_values(|c: RubricImportCriterion| c@) == filter_map(items@.take(i as int), f),
            views(warnings@) == criteria_warnings(items@.take(i as int)),
        decreases items@.len() - i,
    {
        proof {
            lemma_filter_map_step(items@, f, i as int);
            assert(items@.take(i + 1).drop_last() =~= items@.take(i as int));
            assert(items@.take(i + 1).last() == items@[i as int]);
        }
        let ghost before = criteria@.map_values(|c: RubricImportCriterion| c@);
        let ghost wbefore = views(warnings@);
        match criterion(&items[i]) {
            Some(c) => {
                criteria.push(c);
                assert(criteria@.map_values(|c: RubricImportCriterion| c@) =~= before.push(c@));
                let lkeys = ["name", "kriter"];
                let pkeys = ["puan", "score"];
                assert(keys_view(lkeys@) == seq!["name"@, "kriter"@]);
                assert(keys_view(pkeys@) == seq!["puan"@, "score"@]);
                push_alias_warnings(&mut warnings, &items[i], "criterion.label", &lkeys);
                push_alias_warnings(&mut warnings, &items[i], "criterion.points", &pkeys);
                assert(views(warnings@) =~= wbefore + criterion_alias_warnings(items@[i as int]));
            },
            None => {},
        }
        i = i + 1;
    }
    proof {
        lemma_take_all(items@);
    }
    (criteria, warnings)
}


// ---------------------------------------------------------------------------
// Questions
// ---------------------------------------------------------------------------
pub open spec fn question_number_keys() -> Seq<Seq<char>> {
    seq!["questionNumber"@, "question_number"@, "question_no"@, "questionNo"@, "number"@, "soru_no"@]
}

pub open spec fn max_points_keys() -> Seq<Seq<char>> {
    seq!["maxScore"@, "maxPoints"@, "max_points"@, "maxPoint"@, "max_score"@, "puan"@, "points"@, "score"@]
}

pub open spec fn expected_answer_keys() -> Seq<Seq<char>> {
    seq!["expectedAnswer"@, "expected_answer"@, "answer"@, "beklenen_cevap"@, "model_answer"@, "expected"@]
}

pub open spec fn criteria_keys() -> Seq<Seq<char>> {
    seq!["criteria"@, "rubric"@, "scoring_criteria"@, "kriterler"@, "criteria_list"@]
}

/// The question number: a positive integer under any of its spellings.
pub open spec fn item_number(item: JsonValue) -> Option<u64> {
    match u64_of(get_any(item, question_number_keys())) {
        Some(n) => if n > 0 {
            Some(n)
        } else {
            None
        },
        None => None,
    }
}

/// A question item can be read: an object with a question number.
pub open spec fn item_readable(item: JsonValue) -> bool {
    item is Obj && item_number(item) is Some
}

pub open spec fn item_criteria(item: JsonValue) -> (Seq<RubricImportCriterionView>, Seq<Seq<char>>) {
    match get_any(item, criteria_keys()) {
        Some(v) => spec_normalize_criteria(v),
        None => (Seq::empty(), seq!["criteria_missing"@]),
    }
}

pub open spec fn listed_warnings(item: JsonValue) -> Seq<Seq<char>> {
    match arr_of(get(item, "warnings"@)) {
        Some(items) => raw_strings(items),
        None => Seq::empty(),
    }
}

/// The warnings of an item before its content is judged: the given ones,
/// one per alias used, those of its criteria, and those it lists.
pub open spec fn item_warnings(item: JsonValue, extra: Seq<Seq<char>>) -> Seq<Seq<char>> {
    extra + alias_warnings(item, "questionNumber"@, seq!["question_no"@, "question_number"@, "soru_no"@])
        + alias_warnings(
        item,
        "maxPoints"@,
        seq!["max_points"@, "maxPoint"@, "max_score"@, "puan"@, "points"@, "score"@],
    ) + alias_warnings(
        item,
        "expectedAnswer"@,
        seq!["expected_answer"@, "answer"@, "beklenen_cevap"@, "model_answer"@],
    ) + alias_warnings(item, "criteria"@, seq!["rubric"@, "scoring_criteria"@, "kriterler"@])
        + item_criteria(item).1 + listed_warnings(item)
}

/// A question of a drafted rubric, read from a JSON item. `max_positive`
/// says whether its maximum points, read as a float, are above zero; a
/// question with no positive maximum, no expected answer, no key concept
/// and no criterion is flagged as empty.
pub open spec fn spec_rubric_item(item: JsonValue, extra: Seq<Seq<char>>, max_positive: bool) -> Option<
    RubricImportQuestionView,
> {
    if !item_readable(item) {
        None
    } else {
        let expected = nonempty_trimmed(str_of(get_any(item, expected_answer_keys())));
        let key_concepts = rubric_strings(item, seq!["keyConcepts"@, "key_concepts"@, "keywords"@]);
        let criteria = item_criteria(item).0;
        let meaningful = max_positive || expected is Some || key_concepts.len() > 0 || criteria.len() > 0;
        let w = item_warnings(item, extra);
        Some(
            RubricImportQuestionView {
                question_number: item_number(item).unwrap() as u32,
                max_points: number_text_of(get_any(item, max_points_keys())),
                expected_answer: expected,
                key_concepts,
                criteria,
                partial_credit_hints: rubric_strings(
                    item,
                    seq!["partialCreditHints"@, "partial_credit_hints"@, "partialCreditNotes"@],
                ),
                zero_score_conditions: rubric_strings(
                    item,
                    seq!["zeroScoreConditions"@, "zero_score_conditions"@],
                ),
                common_mistakes: rubric_strings(item, seq!["commonMistakes"@, "common_mistakes"@]),
                warnings: if meaningful {
                    w
                } else {
                    w.push("rubric_empty_content"@)
                },
            },
        )
    }
}

/// What `positive` may say of the maximum points of an item: anything
/// where it has a number there, `false` where it has none.
pub open spec fn max_positive_outcome<P: Fn(&JsonNumber) -> bool>(item: JsonValue, positive: P, b: bool) -> bool {
    match number_of(get_any(item, max_points_keys())) {
        Some(n) => positive.ensures((&n,), b),
        None => !b,
    }
}

fn rubric_string_list(item: &JsonValue, names: &[&str]) -> (r: Vec<String>)
    ensures
        views(r@) == rubric_strings(*item, keys_view(names@)),
{
    let ghost keys = keys_view(names@);
    let mut i: usize = 0;
    assert(keys.skip(0) =~= keys);
    while i < names.len()
        invariant
            i <= names@.len(),
            keys == keys_view(names@),
            first_list(*item, keys) == first_list(*item, keys.skip(i as int)),
        decreases names@.len() - i,
    {
        let ghost rest = keys.skip(i as int);
        assert(rest[0] == names@[i as int]@);
        assert(rest.drop_first() =~= keys.skip(i + 1));
        match json_arr(json_get(item, names[i])) {
            Some(items) => {
                return json_trimmed_strings(items);
            },
            None => {},
        }
        i = i + 1;
    }
    let r: Vec<String> = Vec::new();
    assert(views(r@) =~= Seq::<Seq<char>>::empty());
    r
}

fn schema_error(message: &str) -> (e: AppError)
    ensures
        e.code == AppErrorCode::RubricSchemaValidationFailed,
{
    app_error(
        AppErrorCode::RubricSchemaValidationFailed,
        message,
        None,
        Some("Model output schema is invalid.".to_string()),
    )
}

fn strings_of(extra: &[&str]) -> (r: Vec<String>)
    ensures
        views(r@) == keys_view(extra@),
{
    let mut r: Vec<String> = Vec::new();
    let mut i: usize = 0;
    while i < extra.len()
        invariant
            i <= extra@.len(),
            views(r@) == keys_view(extra@).take(i as int),
        decreases extra@.len() - i,
    {
        let ghost before = views(r@);
        r.push(extra[i].to_string());
        assert(views(r@) =~= before.push(extra@[i as int]@));
        assert(keys_view(extra@).take(i + 1) =~= keys_view(extra@).take(i as int).push(extra@[i as int]@));
        i = i + 1;
    }
    assert(keys_view(extra@).take(extra@.len() as int) =~= keys_view(extra@));
    r
}

/// A question of a drafted rubric from a JSON item; `positive` tells
/// whether a JSON number is above zero as a float. A schema error where
/// the item is not an object or has no positive question number.
pub fn parse_rubric_question_item<P: Fn(&JsonNumber) -> bool>(
    item: &JsonValue,
    extra_warnings: &[&str],
    positive: &P,
) -> (r: Result<RubricImportQuestion, AppError>)
    requires
        forall|n: &JsonNumber| positive.requires((n,)),
    ensures
        match r {
            Ok(q) => exists|b: bool|
                max_positive_outcome(*item, *positive, b) && spec_rubric_item(
                    *item,
                    keys_view(extra_warnings@),
                    b,
                ) == Some(#[trigger] q@),
            Err(e) => !item_readable(*item) && e.code == AppErrorCode::RubricSchemaValidationFailed,
        },
{
    match item {
        JsonValue::Obj(_) => {},
        _ => {
            return Err(schema_error("Rubrik soru girdisi nesne olmalıdır."));
        },
    }
    let nkeys = ["questionNumber", "question_number", "question_no", "questionNo", "number", "soru_no"];
    let mkeys = ["maxScore", "maxPoints", "max_points", "maxPoint", "max_score", "puan", "points", "score"];
    let ekeys = ["expectedAnswer", "expected_answer", "answer", "beklenen_cevap", "model_answer", "expected"];
    let ckeys = ["criteria", "rubric", "scoring_criteria", "kriterler", "criteria_list"];
    assert(keys_view(nkeys@) == question_number_keys());
    assert(keys_view(mkeys@) == max_points_keys());
    assert(keys_view(ekeys@) == expected_answer_keys());
    assert(keys_view(ckeys@) == criteria_keys());
    let number = match json_u64(json_get_any(item, &nkeys)) {
        Some(n) => if n > 0 {
            n
        } else {
            return Err(schema_error("`questionNumber` alanı eksik veya geçersiz."));
        },
        None => {
            return Err(schema_error("`questionNumber` alanı eksik veya geçersiz."));
        },
    };
    let mut warnings = strings_of(extra_warnings);
    let a1 = ["question_no", "question_number", "soru_no"];
    let a2 = ["max_points", "maxPoint", "max_score", "puan", "points", "score"];
    let a3 = ["expected_answer", "answer", "beklenen_cevap", "model_answer"];
    let a4 = ["rubric", "scoring_criteria", "kriterler"];
    assert(keys_view(a1@) == seq!["question_no"@, "question_number"@, "soru_no"@]);
    assert(keys_view(a2@) == seq!["max_points"@, "maxPoint"@, "max_score"@, "puan"@, "points"@, "score"@]);
    assert(keys_view(a3@) == seq!["expected_answer"@, "answer"@, "beklenen_cevap"@, "model_answer"@]);
    assert(keys_view(a4@) == seq!["rubric"@, "scoring_criteria"@, "kriterler"@]);
    push_alias_warnings(&mut warnings, item, "questionNumber", &a1);
    push_alias_warnings(&mut warnings, item, "maxPoints", &a2);
    push_alias_warnings(&mut warnings, item, "expectedAnswer", &a3);
    let max_value = json_get_any(item, &mkeys);
    let max_points = number_text_at(max_value);
    let expected_answer = nonempty_trimmed_str(json_str(json_get_any(item, &ekeys)));
    let k1 = ["keyConcepts", "key_concepts", "keywords"];
    let k2 = ["partialCreditHints", "partial_credit_hints", "partialCreditNotes"];
    let k3 = ["zeroScoreConditions", "zero_score_conditions"];
    let k4 = ["commonMistakes", "common_mistakes"];
    assert(keys_view(k1@) == seq!["keyConcepts"@, "key_concepts"@, "keywords"@]);
    assert(keys_view(k2@) == seq!["partialCreditHints"@, "partial_credit_hints"@, "partialCreditNotes"@]);
    assert(keys_view(k3@) == seq!["zeroScoreConditions"@, "zero_score_conditions"@]);
    assert(keys_view(k4@) == seq!["commonMistakes"@, "common_mistakes"@]);
    let key_concepts = rubric_string_list(item, &k1);
    let partial_credit_hints = rubric_string_list(item, &k2);
    let zero_score_conditions = rubric_string_list(item, &k3);
    let common_mistakes = rubric_string_list(item, &k4);
    push_alias_warnings(&mut warnings, item, "criteria", &a4);
    let (criteria, criterion_warnings) = match json_get_any(item, &ckeys) {
        Some(v) => normalize_rubric_criteria(v),
        None => {
            let c: Vec<RubricImportCriterion> = Vec::new();
            let w = vec!["criteria_missing".to_string()];
            assert(c@.map_values(|c: RubricImportCriterion| c@) =~= Seq::<RubricImportCriterionView>::empty());
            assert(views(w@) =~= seq!["criteria_missing"@]);
            (c, w)
        },
    };
    let ghost w0 = views(warnings@);
    let mut j: usize = 0;
    while j < criterion_warnings.len()
        invariant
            j <= criterion_warnings@.len(),
            views(warnings@) == w0 + views(criterion_warnings@).take(j as int),
        decreases criterion_warnings@.len() - j,
    {
        let ghost before = views(warnings@);
        warnings.push(criterion_warnings[j].clone());
        assert(views(warnings@) =~= before.push(criterion_warnings@[j as int]@));
        assert(views(criterion_warnings@).take(j + 1) =~= views(criterion_warnings@).take(j as int).push(
            criterion_warnings@[j as int]@,
        ));
        j = j + 1;
    }
    assert(views(criterion_warnings@).take(criterion_warnings@.len() as int) =~= views(criterion_warnings@));
    let listed = match json_arr(json_get(item, "warnings")) {
        Some(items) => json_raw_strings(items),
        None => {
            let r: Vec<String> = Vec::new();
            assert(views(r@) =~= Seq::<Seq<char>>::empty());
            r
        },
    };
    let ghost w1 = views(warnings@);
    let mut j: usize = 0;
    while j < listed.len()
        invariant
            j <= listed@.len(),
            views(warnings@) == w1 + views(listed@).take(j as int),
        decreases listed@.len() - j,
    {
        let ghost before = views(warnings@);
        warnings.push(listed[j].clone());
        assert(views(warnings@) =~= before.push(listed@[j as int]@));
        assert(views(listed@).take(j + 1) =~= views(listed@).take(j as int).push(listed@[j as int]@));
        j = j + 1;
    }
    assert(views(listed@).take(listed@.len() as int) =~= views(listed@));
    let max_positive = match max_value {
        Some(JsonValue::Num(n)) => positive(n),
        _ => false,
    };
    let meaningful = max_positive || expected_answer.is_some() || key_concepts.len() > 0 || criteria.len() > 0;
    assert(views(warnings@) =~= item_warnings(*item, keys_view(extra_warnings@)));
    if !meaningful {
        warnings.push("rubric_empty_content".to_string());
    }
    let q = RubricImportQuestion {
        question_number: number as u32,
        max_points,
        expected_answer,
        key_concepts,
        criteria,
        partial_credit_hints,
        zero_score_conditions,
        common_mistakes,
        warnings,
    };
    assert(max_positive_outcome(*item, *positive, max_positive));
    let ghost sq = spec_rubric_item(*item, keys_view(extra_warnings@), max_positive).unwrap();
    assert(q@.question_number == sq.question_number);
    assert(q@.max_points == sq.max_points);
    assert(q@.expected_answer == sq.expected_answer);
    assert(q@.key_concepts == sq.key_concepts);
    assert(q@.criteria == sq.criteria);
    assert(q@.partial_credit_hints == sq.partial_credit_hints);
    assert(q@.zero_score_conditions == sq.zero_score_conditions);
    assert(q@.common_mistakes == sq.common_mistakes);
    assert(q@.warnings == sq.warnings);
    assert(q@ == spec_rubric_item(*item, keys_view(extra_warnings@), max_positive).unwrap());
    Ok(q)
}

// ---------------------------------------------------------------------------
// Whole questions of a truncated reply
// ---------------------------------------------------------------------------
/// The spans (first and last character) of the objects at the top level of
/// the question list, scanning from position `i` with the given bracket
/// depth, string state and start of the current object; the scan stops at
/// the list's closing `]`.
pub open spec fn scan_objects(
    s: Seq<char>,
    i: int,
    depth: int,
    in_string: bool,
    escape: bool,
    start: Option<int>,
) -> Seq<(int, int)>
    decreases s.len() - i,
{
    if i < 0 || i >= s.len() {
        Seq::empty()
    } else {
        let c = s[i];
        if in_string {
            if escape {
                scan_objects(s, i + 1, depth, true, false, start)
            } else if c == '\\' {
                scan_objects(s, i + 1, depth, true, true, start)
            } else if c == '"' {
                scan_objects(s, i + 1, depth, false, false, start)
            } else {
                scan_objects(s, i + 1, depth, true, false, start)
            }
        } else if c == '"' {
            scan_objects(s, i + 1, depth, true, false, start)
        } else if c == '{' {
            scan_objects(
                s,
                i + 1,
                depth + 1,
                false,
                false,
                if depth == 0 {
                    Some(i)
                } else {
                    start
                },
            )
        } else if c == '}' {
            if depth - 1 == 0 && start is Some {
                seq![(start.unwrap(), i)] + scan_objects(s, i + 1, 0, false, false, None)
            } else {
                scan_objects(s, i + 1, depth - 1, false, false, start)
            }
        } else if c == ']' && depth == 0 {
            Seq::empty()
        } else {
            scan_objects(s, i + 1, depth, false, false, start)
        }
    }
}

pub open spec fn questions_key() -> Seq<char> {
    "\"questions\""@
}

/// The spans of the whole objects in the list that follows the first
/// `"questions"` key of the text.
pub open spec fn recoverable_spans(s: Seq<char>) -> Seq<(int, int)> {
    let k = crate::model_text::find(s, questions_key());
    if k < 0 {
        Seq::empty()
    } else {
        let a = crate::model_text::find_from(s, seq!['['], k);
        if a < 0 {
            Seq::empty()
        } else {
            scan_objects(s, a + 1, 0, false, false, None)
        }
    }
}

pub open spec fn span_view(p: (usize, usize)) -> (int, int) {
    (p.0 as int, p.1 as int)
}

/// The spans of the whole question objects of a truncated reply.
pub fn recoverable_object_spans(chars: &Vec<char>) -> (r: Vec<(usize, usize)>)
    ensures
        r@.map_values(|p: (usize, usize)| span_view(p)) == recoverable_spans(chars@),
        forall|j: int| 0 <= j < r@.len() ==> (#[trigger] r@[j]).0 <= r@[j].1 < chars@.len(),
{
    let mut out: Vec<(usize, usize)> = Vec::new();
    let key = crate::text::chars_of("\"questions\"");
    proof {
        reveal_strlit("\"questions\"");
    }
    let k = match crate::model_text::find_chars(chars, &key, 0) {
        Some(k) => k,
        None => {
            assert(out@.map_values(|p: (usize, usize)| span_view(p)) =~= Seq::<(int, int)>::empty());
            return out;
        },
    };
    let bracket = vec!['['];
    assert(bracket@ =~= seq!['[']);
    let a = match crate::model_text::find_chars(chars, &bracket, k) {
        Some(a) => a,
        None => {
            assert(out@.map_values(|p: (usize, usize)| span_view(p)) =~= Seq::<(int, int)>::empty());
            return out;
        },
    };
    let ghost s = chars@;
    assert(a < chars.len());
    let ghost total = scan_objects(s, a + 1, 0, false, false, None);
    let mut i: usize = a + 1;
    let mut depth: i128 = 0;
    let mut in_string = false;
    let mut escape = false;
    let mut start: Option<usize> = None;
    let mut stopped = false;
    assert(out@.map_values(|p: (usize, usize)| span_view(p)) =~= Seq::<(int, int)>::empty());
    while i < chars.len() && !stopped
        invariant
            s == chars@,
            a + 1 <= i <= s.len(),
            -(i as int) <= depth <= i,
            !in_string ==> !escape,
            match start {
                Some(st) => st < i,
                None => true,
            },
            forall|j: int| 0 <= j < out@.len() ==> (#[trigger] out@[j]).0 <= out@[j].1 < s.len(),
            out@.map_values(|p: (usize, usize)| span_view(p)) + (if stopped {
                Seq::<(int, int)>::empty()
            } else {
                scan_objects(
                    s,
                    i as int,
                    depth as int,
                    in_string,
                    escape,
                    match start {
                        Some(st) => Some(st as int),
                        None => None,
                    },
                )
            }) == total,
        decreases s.len() - i + (if stopped { 0int } else { 1int }),
    {
        let c = chars[i];
        let ghost before = out@.map_values(|p: (usize, usize)| span_view(p));
        let ghost sv = match start {
            Some(st) => Some(st as int),
            None => None,
        };
        let ghost cur = scan_objects(s, i as int, depth as int, in_string, escape, sv);
        assert(c == s[i as int]);
        if in_string {
            if escape {
                escape = false;
            } else if c == '\\' {
                escape = true;
            } else if c == '"' {
                in_string = false;
            }
            i = i + 1;
        } else if c == '"' {
            in_string = true;
            i = i + 1;
        } else if c == '{' {
            if depth == 0 {
                start = Some(i);
            }
            depth = depth + 1;
            i = i + 1;
        } else if c == '}' {
            depth = depth - 1;
            if depth == 0 && start.is_some() {
                let st = start.unwrap();
                out.push((st, i));
                assert(out@.map_values(|p: (usize, usize)| span_view(p)) =~= before.push((st as int, i as int)));
                assert(before.push((st as int, i as int)) + scan_objects(s, i + 1, 0, false, false, None)
                    =~= before + (seq![(st as int, i as int)] + scan_objects(s, i + 1, 0, false, false, None)));
                start = None;
            }
            i = i + 1;
        } else if c == ']' && depth == 0 {
            stopped = true;
            assert(cur == Seq::<(int, int)>::empty());
            assert(before + Seq::<(int, int)>::empty() =~= before);
        } else {
            i = i + 1;
        }
    }
    if !stopped {
        assert(out@.map_values(|p: (usize, usize)| span_view(p)) + Seq::<(int, int)>::empty()
            =~= out@.map_values(|p: (usize, usize)| span_view(p)));
    } else {
        assert(out@.map_values(|p: (usize, usize)| span_view(p)) + Seq::<(int, int)>::empty()
            =~= out@.map_values(|p: (usize, usize)| span_view(p)));
    }
    out
}

pub open spec fn partial_extras() -> Seq<Seq<char>> {
    seq!["partial_model_json_recovered"@, "model_response_truncated_or_incomplete_json"@]
}

pub open spec fn span_text(s: Seq<char>, sp: (int, int)) -> Seq<char> {
    s.subrange(sp.0, sp.1 + 1)
}

/// What reading one recovered object may give: nothing where the reader
/// refuses it or it is not a readable question, otherwise the question
/// with the recovery warnings.
pub open spec fn recovered_outcome<F: Fn(&str) -> Result<JsonValue, String>, P: Fn(&JsonNumber) -> bool>(
    read_json: F,
    positive: P,
    text: Seq<char>,
    o: Option<RubricImportQuestionView>,
) -> bool {
    exists|s: &str, out: Result<JsonValue, String>|
        s@ == text && #[trigger] read_json.ensures((s,), out) && match out {
            Err(_) => o is None,
            Ok(v) => if item_readable(v) {
                exists|b: bool|
                    max_positive_outcome(v, positive, b) && o == spec_rubric_item(v, partial_extras(), b)
            } else {
                o is None
            },
        }
}

/// One outcome per whole object of the question list of `text`.
pub open spec fn outcomes_fit<F: Fn(&str) -> Result<JsonValue, String>, P: Fn(&JsonNumber) -> bool>(
    read_json: F,
    positive: P,
    text: Seq<char>,
    outs: Seq<Option<RubricImportQuestionView>>,
) -> bool {
    &&& outs.len() == recoverable_spans(text).len()
    &&& forall|i: int|
        0 <= i < outs.len() ==> recovered_outcome(
            read_json,
            positive,
            span_text(text, recoverable_spans(text)[i]),
            #[trigger] outs[i],
        )
}

/// The questions recovered from a truncated reply: one outcome per whole
/// object of its question list; the questions read, where there are any.
pub open spec fn recovered<F: Fn(&str) -> Result<JsonValue, String>, P: Fn(&JsonNumber) -> bool>(
    read_json: F,
    positive: P,
    text: Seq<char>,
    r: Option<Seq<RubricImportQuestionView>>,
) -> bool {
    exists|outs: Seq<Option<RubricImportQuestionView>>|
        #[trigger] outcomes_fit(read_json, positive, text, outs) && match r {
            Some(qs) => qs == filter_map(outs, |o: Option<RubricImportQuestionView>| o) && qs.len() > 0,
            None => filter_map(outs, |o: Option<RubricImportQuestionView>| o).len() == 0,
        }
}

pub open spec fn payload_opt_view(r: Option<RubricImportPayload>) -> Option<Seq<RubricImportQuestionView>> {
    match r {
        Some(p) => Some(payload_view(p)),
        None => None,
    }
}

/// The whole questions of a truncated rubric reply, each read with
/// `read_json`; nothing where none is whole and readable.
pub fn parse_partial_rubric_questions<F: Fn(&str) -> Result<JsonValue, String>, P: Fn(&JsonNumber) -> bool>(
    raw: &str,
    read_json: &F,
    positive: &P,
) -> (r: Option<RubricImportPayload>)
    requires
        forall|s: &str| read_json.requires((s,)),
        forall|n: &JsonNumber| positive.requires((n,)),
    ensures
        recovered(*read_json, *positive, raw@, payload_opt_view(r)),
{
    let chars = crate::text::chars_of(raw);
    let spans = recoverable_object_spans(&chars);
    let ghost sp = recoverable_spans(raw@);
    let extras = ["partial_model_json_recovered", "model_response_truncated_or_incomplete_json"];
    assert(keys_view(extras@) == partial_extras());
    let ghost f = |o: Option<RubricImportQuestionView>| o;
    let mut questions: Vec<RubricImportQuestion> = Vec::new();
    let ghost mut outs: Seq<Option<RubricImportQuestionView>> = Seq::empty();
    let mut j: usize = 0;
    while j < spans.len()
        invariant
            chars@ == raw@,
            spans@.map_values(|p: (usize, usize)| span_view(p)) == sp,
            sp == recoverable_spans(raw@),
            forall|t: int| 0 <= t < spans@.len() ==> (#[trigger] spans@[t]).0 <= spans@[t].1 < chars@.len(),
            keys_view(extras@) == partial_extras(),
            forall|s: &str| read_json.requires((s,)),
            forall|n: &JsonNumber| positive.requires((n,)),
            j <= spans@.len(),
            outs.len() == j,
            f == (|o: Option<RubricImportQuestionView>| o),
            forall|t: int| 0 <= t < j ==> recovered_outcome(*read_json, *positive, span_text(raw@, sp[t]), #[trigger] outs[t]),
            qviews(questions@) == filter_map(outs, f),
        decreases spans@.len() - j,
    {
        let (st, en) = spans[j];
        assert(sp[j as int] == (st as int, en as int));
        let text = crate::text::slice_string(&chars, st, en + 1);
        let out = read_json(text.as_str());
        let ghost o: Option<RubricImportQuestionView> = None;
        let ghost before = qviews(questions@);
        match &out {
            Ok(v) => match parse_rubric_question_item(v, &extras, positive) {
                Ok(q) => {
                    proof {
                        o = Some(q@);
                    }
                    questions.push(q);
                    assert(qviews(questions@) =~= before.push(q@));
                },
                Err(_) => {},
            },
            Err(_) => {},
        }
        proof {
            assert(recovered_outcome(*read_json, *positive, span_text(raw@, sp[j as int]), o));
            let outs2 = outs.push(o);
            assert(outs2.drop_last() =~= outs);
            assert(filter_map(outs2, f) == match f(o) {
                Some(b) => filter_map(outs, f).push(b),
                None => filter_map(outs, f),
            });
            outs = outs2;
        }
        j = j + 1;
    }
    let ghost qs = qviews(questions@);
    assert(outcomes_fit(*read_json, *positive, raw@, outs));
    if questions.len() == 0 {
        assert(recovered(*read_json, *positive, raw@, None));
        None
    } else {
        let p = RubricImportPayload { questions };
        assert(recovered(*read_json, *positive, raw@, Some(qs)));
        Some(p)
    }
}

// ---------------------------------------------------------------------------
// The rubric reply
// ---------------------------------------------------------------------------
/// The JSON text of a rubric reply: reasoning and fences removed, then the
/// balanced value at its first bracket (after leading white space), or all
/// of it where that does not balance.
pub open spec fn spec_rubric_candidate(raw: Seq<char>) -> Seq<char> {
    let cleaned = spec_strip_reasoning(raw);
    let t = trim_start(cleaned);
    let k = first_open(t, 0);
    if k >= 0 && balanced_from(t, k) is Some {
        balanced_from(t, k).unwrap()
    } else {
        cleaned
    }
}

pub fn rubric_candidate(raw: &str) -> (r: String)
    ensures
        r@ == spec_rubric_candidate(raw@),
{
    let cleaned = strip_reasoning_and_fences(raw);
    let chars = crate::text::chars_of(cleaned.as_str());
    let t = trim_start_chars(&chars);
    match first_open_index(&t) {
        Some(k) => match balanced_candidate(&t, k) {
            Some(c) => c,
            None => cleaned,
        },
        None => cleaned,
    }
}

/// The question list of a rubric reply: `questions` of a root object, or
/// the root array.
pub open spec fn rubric_list(v: JsonValue) -> Option<Seq<JsonValue>> {
    match v {
        JsonValue::Obj(_) => arr_of(get(v, "questions"@)),
        JsonValue::Arr(items) => Some(items@),
        _ => None,
    }
}

/// The item reads as the question, for some answer of `positive`.
pub open spec fn item_reads_as<P: Fn(&JsonNumber) -> bool>(
    item: JsonValue,
    positive: P,
    q: RubricImportQuestionView,
) -> bool {
    exists|b: bool| max_positive_outcome(item, positive, b) && spec_rubric_item(item, Seq::empty(), b) == Some(q)
}

/// Every item reads as the question at its place.
pub open spec fn items_read<P: Fn(&JsonNumber) -> bool>(
    items: Seq<JsonValue>,
    positive: P,
    qs: Seq<RubricImportQuestionView>,
) -> bool {
    &&& qs.len() == items.len()
    &&& forall|i: int| 0 <= i < items.len() ==> item_reads_as(items[i], positive, #[trigger] qs[i])
}

/// The list follows the schema: it is there, not empty, and every item is
/// a readable question.
pub open spec fn rubric_list_valid(v: JsonValue) -> bool {
    match rubric_list(v) {
        Some(items) => items.len() > 0 && forall|i: int| 0 <= i < items.len() ==> item_readable(
            #[trigger] items[i],
        ),
        None => false,
    }
}

/// Reads a rubric reply. Its JSON text goes to `read_json`; a refused text
/// yields the questions recoverable from it, or a JSON error where there
/// are none; a read one is checked against the schema. `positive` tells
/// whether a JSON number is above zero as a float.
pub fn parse_rubric_model_response<F: Fn(&str) -> Result<JsonValue, String>, P: Fn(&JsonNumber) -> bool>(
    raw: &str,
    read_json: &F,
    positive: &P,
) -> (r: Result<RubricImportPayload, AppError>)
    requires
        forall|s: &str| read_json.requires((s,)),
        forall|n: &JsonNumber| positive.requires((n,)),
    ensures
        ({
            let c = spec_rubric_candidate(raw@);
            exists|s: &str, out: Result<JsonValue, String>|
                s@ == c && #[trigger] read_json.ensures((s,), out) && match out {
                    Err(_) => match r {
                        Ok(p) => recovered(*read_json, *positive, c, Some(payload_view(p))),
                        Err(e) => e.code == AppErrorCode::RubricJsonParseFailed && recovered(
                            *read_json,
                            *positive,
                            c,
                            None,
                        ),
                    },
                    Ok(v) => match r {
                        Ok(p) => rubric_list_valid(v) && items_read(
                            rubric_list(v).unwrap(),
                            *positive,
                            payload_view(p),
                        ),
                        Err(e) => !rubric_list_valid(v) && e.code == AppErrorCode::RubricSchemaValidationFailed,
                    },
                }
        }),
{
    let candidate = rubric_candidate(raw);
    let cs = candidate.as_str();
    let out = read_json(cs);
    let value = match &out {
        Ok(v) => v,
        Err(_) => {
            return match parse_partial_rubric_questions(cs, read_json, positive) {
                Some(payload) => Ok(payload),
                None => Err(
                    app_error(
                        AppErrorCode::RubricJsonParseFailed,
                        "Rubrik JSON çıktısı çözülemedi.",
                        None,
                        Some("Model çıktısını strict JSON olarak tekrar isteyin.".to_string()),
                    ),
                ),
            };
        },
    };
    let items: &Vec<JsonValue> = match value {
        JsonValue::Obj(_) => match json_arr(json_get(value, "questions")) {
            Some(items) => items,
            None => {
                return Err(schema_error("Rubrik JSON şeması beklenen alanları içermiyor."));
            },
        },
        JsonValue::Arr(items) => items,
        _ => {
            return Err(schema_error("Rubrik JSON kök nesnesi beklenen biçimde değil."));
        },
    };
    let ghost list = items@;
    assert(rubric_list(*value) == Some(list));
    let no_extras: [&str; 0] = [];
    assert(keys_view(no_extras@) =~= Seq::<Seq<char>>::empty());
    let mut questions: Vec<RubricImportQuestion> = Vec::new();
    let mut i: usize = 0;
    while i < items.len()
        invariant
            i <= list.len(),
            list == items@,
            rubric_list(*value) == Some(list),
            cs@ == spec_rubric_candidate(raw@),
            read_json.ensures((cs,), out),
            out == Ok::<JsonValue, String>(*value),
            keys_view(no_extras@) == Seq::<Seq<char>>::empty(),
            forall|n: &JsonNumber| positive.requires((n,)),
            questions@.len() == i,
            forall|j: int| 0 <= j < i ==> item_readable(#[trigger] list[j]),
            forall|j: int| 0 <= j < i ==> item_reads_as(list[j], *positive, #[trigger] qviews(questions@)[j]),
        decreases list.len() - i,
    {
        let ghost before = qviews(questions@);
        match parse_rubric_question_item(&items[i], &no_extras, positive) {
            Ok(q) => {
                questions.push(q);
                let ghost after = qviews(questions@);
                assert(after =~= before.push(q@));
                assert forall|j: int| 0 <= j < i + 1 implies item_reads_as(list[j], *positive, #[trigger] after[j]) by {
                    if j < i {
                        assert(after[j] == before[j]);
                    } else {
                        let b = choose|b: bool|
                            max_positive_outcome(list[i as int], *positive, b) && spec_rubric_item(
                                list[i as int],
                                Seq::empty(),
                                b,
                            ) == Some(q@);
                        assert(after[j] == q@);
                        assert(max_positive_outcome(list[j], *positive, b));
                    }
                }
                assert(item_readable(list[i as int]));
            },
            Err(e) => {
                assert(!item_readable(list[i as int]));
                return Err(e);
            },
        }
        i = i + 1;
    }
    if questions.len() == 0 {
        return Err(schema_error("Rubrik JSON çıktısında geçerli soru bulunamadı."));
    }
    let p = RubricImportPayload { questions };
    assert(items_read(list, *positive, payload_view(p)));
    Ok(p)
}

// ---------------------------------------------------------------------------
// Laws
// ---------------------------------------------------------------------------
/// A question recovered from a truncated reply is marked as recovered: its
/// warnings start with the recovery warnings.
pub proof fn lemma_recovered_question_marked(item: JsonValue, b: bool)
    requires
        item_readable(item),
    ensures
        spec_rubric_item(item, partial_extras(), b).unwrap().warnings.take(2) == partial_extras(),
{
    let q = spec_rubric_item(item, partial_extras(), b).unwrap();
    let w = item_warnings(item, partial_extras());
    assert(w.take(2) =~= partial_extras());
    if !(q.warnings == w) {
        assert(q.warnings.take(2) =~= w.take(2));
    }
}

/// Every alias an item uses for its question number is reported.
pub proof fn lemma_number_alias_reported(item: JsonValue, extra: Seq<Seq<char>>, b: bool, alias: Seq<char>)
    requires
        item_readable(item),
        alias == "question_no"@ || alias == "question_number"@ || alias == "soru_no"@,
        get(item, alias) is Some,
    ensures
        spec_rubric_item(item, extra, b).unwrap().warnings.contains(alias_warning("questionNumber"@, alias)),
{
    let aliases = seq!["question_no"@, "question_number"@, "soru_no"@];
    let a = alias_warnings(item, "questionNumber"@, aliases);
    let k: int = if alias == "question_no"@ {
        0
    } else if alias == "question_number"@ {
        1
    } else {
        2
    };
    assert(aliases[k] == alias);
    lemma_alias_reported(item, "questionNumber"@, aliases, k);
    let w = item_warnings(item, extra);
    let j = choose|j: int| 0 <= j < a.len() && a[j] == alias_warning("questionNumber"@, alias);
    assert(w[extra.len() + j] == alias_warning("questionNumber"@, alias));
    let q = spec_rubric_item(item, extra, b).unwrap();
    if q.warnings != w {
        assert(q.warnings[extra.len() + j] == w[extra.len() + j]);
    }
}

/// An alias the object uses is among the alias warnings.
pub proof fn lemma_alias_reported(item: JsonValue, field: Seq<char>, aliases: Seq<Seq<char>>, k: int)
    requires
        0 <= k < aliases.len(),
        get(item, aliases[k]) is Some,
    ensures
        alias_warnings(item, field, aliases).contains(alias_warning(field, aliases[k])),
    decreases aliases.len(),
{
    let r = alias_warnings(item, field, aliases.drop_last());
    if k == aliases.len() - 1 {
        assert(alias_warnings(item, field, aliases).last() == alias_warning(field, aliases[k]));
    } else {
        assert(aliases.drop_last()[k] == aliases[k]);
        lemma_alias_reported(item, field, aliases.drop_last(), k);
        let j = choose|j: int| 0 <= j < r.len() && r[j] == alias_warning(field, aliases[k]);
        assert(alias_warnings(item, field, aliases)[j] == r[j]);
    }
}
} // verus!
