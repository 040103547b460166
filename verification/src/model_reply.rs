//! Reading the model's replies: the JSON text is cut out of the reply, read
//! as a JSON value by the caller's reader, and checked against the schema
//! that each task expects.
use vstd::prelude::*;
use crate::errors::{app_error, AppError, AppErrorCode};
use crate::json::{
    arr_of, bool_of, get, get_any, json_arr, json_bool, json_get, json_get_any,
    json_optional_string, json_raw_strings, json_str, json_string_array, json_u64, keys_view,
    opt_view, optional_string_field, raw_strings, str_of, string_array_field, u64_of, views,
    JsonValue,
};
use crate::model_text::{
    extract_first_balanced_json_candidate, first_balanced_from, spec_strip_reasoning,
    strip_reasoning_and_fences,
};
use crate::text::{trim, trim_str};

verus! {

// ---------------------------------------------------------------------------
// The JSON text of a reply
// ---------------------------------------------------------------------------
/// The JSON text of a reply: reasoning and fences removed, then the first
/// balanced object or array in it, or all of it where there is none.
pub open spec fn spec_json_candidate(raw: Seq<char>) -> Seq<char> {
    let cleaned = spec_strip_reasoning(raw);
    match first_balanced_from(trim(cleaned), 0) {
        Some(c) => c,
        None => cleaned,
    }
}

pub fn json_candidate(raw: &str) -> (r: String)
    ensures
        r@ == spec_json_candidate(raw@),
{
    let cleaned = strip_reasoning_and_fences(raw);
    match extract_first_balanced_json_candidate(cleaned.as_str()) {
        Some(c) => c,
        None => cleaned,
    }
}

// ---------------------------------------------------------------------------
// Question text extraction
// ---------------------------------------------------------------------------
/// A question found on a page. The confidence is the JSON number as the
/// model wrote it, where it wrote one.
#[derive(Debug)]
pub struct ExtractedQuestionCandidate {
    pub number: u32,
    pub question_text: String,
    pub confidence: Option<String>,
    pub warnings: Vec<String>,
}

/// The questions found on a page and the page's warnings.
#[derive(Debug)]
pub struct QuestionTextExtraction {
    pub questions: Vec<ExtractedQuestionCandidate>,
    pub page_warnings: Vec<String>,
}

pub type QuestionView = (u32, Seq<char>, Option<Seq<char>>, Seq<Seq<char>>);

pub open spec fn question_view(q: ExtractedQuestionCandidate) -> QuestionView {
    (
        q.number,
        q.question_text@,
        match q.confidence {
            Some(c) => Some(c@),
            None => None,
        },
        views(q.warnings@),
    )
}

pub open spec fn number_keys() -> Seq<Seq<char>> {
    seq!["number"@, "questionNumber"@, "question_number"@, "soru_no"@]
}

pub open spec fn question_text_keys() -> Seq<Seq<char>> {
    seq!["question_text"@, "questionText"@, "text"@, "soru"@]
}

/// The strings of the list under `field`, as they are; none where there is
/// no list.
pub open spec fn raw_string_list(v: JsonValue, field: Seq<char>) -> Seq<Seq<char>> {
    match arr_of(get(v, field)) {
        Some(items) => raw_strings(items),
        None => Seq::empty(),
    }
}

/// The text of the JSON number under `field`.
pub open spec fn number_text(v: JsonValue, field: Seq<char>) -> Option<Seq<char>> {
    match get(v, field) {
        Some(JsonValue::Num(n)) => Some(n.text@),
        _ => None,
    }
}

/// One question of the list: an object with a number (any of its spellings,
/// taken modulo 2^32 as the reader does) that is not 0 and a question text
/// that is not blank.
pub open spec fn spec_question_item(item: JsonValue) -> Option<QuestionView> {
    match item {
        JsonValue::Obj(_) => match (
            u64_of(get_any(item, number_keys())),
            str_of(get_any(item, question_text_keys())),
        ) {
            (Some(n), Some(t)) => if n as u32 != 0 && trim(t).len() > 0 {
                Some(
                    (
                        n as u32,
                        t,
                        number_text(item, "confidence"@),
                        raw_string_list(item, "warnings"@),
                    ),
                )
            } else {
                None
            },
            _ => None,
        },
        _ => None,
    }
}

/// The question list of the reply: `questions` of a root object, or the
/// root array itself.
pub open spec fn question_list(v: JsonValue) -> Option<Seq<JsonValue>> {
    match v {
        JsonValue::Obj(_) => arr_of(get(v, "questions"@)),
        JsonValue::Arr(items) => Some(items@),
        _ => None,
    }
}

/// The questions and page warnings of a question-text reply, or nothing
/// where it does not follow the schema: every item valid and at least one.
pub open spec fn spec_question_text(v: JsonValue) -> Option<(Seq<QuestionView>, Seq<Seq<char>>)> {
    match question_list(v) {
        Some(items) => if items.len() > 0 && forall|i: int|
            0 <= i < items.len() ==> (#[trigger] spec_question_item(items[i])) is Some {
            Some(
                (
                    Seq::new(items.len(), |i: int| spec_question_item(items[i]).unwrap()),
                    raw_string_list(v, "page_warnings"@),
                ),
            )
        } else {
            None
        },
        None => None,
    }
}

fn schema_error(message: &str) -> (e: AppError)
    ensures
        e.code == AppErrorCode::ModelResponseInvalidSchema,
{
    app_error(
        AppErrorCode::ModelResponseInvalidSchema,
        message,
        None,
        Some("Model output schema is invalid.".to_string()),
    )
}

fn raw_string_list_of(v: &JsonValue, field: &str) -> (r: Vec<String>)
    ensures
        views(r@) == raw_string_list(*v, field@),
{
    match json_arr(json_get(v, field)) {
        Some(items) => json_raw_strings(items),
        None => {
            let r: Vec<String> = Vec::new();
            assert(views(r@) =~= Seq::<Seq<char>>::empty());
            r
        },
    }
}

fn number_text_of(v: &JsonValue, field: &str) -> (r: Option<String>)
    ensures
        match r {
            Some(t) => number_text(*v, field@) == Some(t@),
            None => number_text(*v, field@) is None,
        },
{
    match json_get(v, field) {
        Some(JsonValue::Num(n)) => Some(n.text.clone()),
        _ => None,
    }
}

fn question_item(item: &JsonValue) -> (r: Option<ExtractedQuestionCandidate>)
    ensures
        match r {
            Some(q) => spec_question_item(*item) == Some(question_view(q)),
            None => spec_question_item(*item) is None,
        },
{
    match item {
        JsonValue::Obj(_) => {},
        _ => {
            return None;
        },
    }
    let nkeys = ["number", "questionNumber", "question_number", "soru_no"];
    let tkeys = ["question_text", "questionText", "text", "soru"];
    assert(keys_view(nkeys@) == number_keys());
    assert(keys_view(tkeys@) == question_text_keys());
    let n = match json_u64(json_get_any(item, &nkeys)) {
        Some(n) => n,
        None => {
            return None;
        },
    };
    let t = match json_str(json_get_any(item, &tkeys)) {
        Some(t) => t,
        None => {
            return None;
        },
    };
    let number = n as u32;
    if number == 0 || trim_str(t.as_str()).as_str().is_empty() {
        return None;
    }
    let q = ExtractedQuestionCandidate {
        number,
        question_text: t.clone(),
        confidence: number_text_of(item, "confidence"),
        warnings: raw_string_list_of(item, "warnings"),
    };
    Some(q)
}

/// The questions and page warnings of a question-text reply read as JSON;
/// a schema error where the reply does not follow the schema.
pub fn question_text_from_json(value: &JsonValue) -> (r: Result<QuestionTextExtraction, AppError>)
    ensures
        match r {
            Ok(o) => spec_question_text(*value) == Some(
                (o.questions@.map_values(|q: ExtractedQuestionCandidate| question_view(q)), views(o.page_warnings@)),
            ),
            Err(e) => spec_question_text(*value) is None && e.code
                == AppErrorCode::ModelResponseInvalidSchema,
        },
{
    let items: &Vec<JsonValue> = match value {
        JsonValue::Obj(_) => match json_arr(json_get(value, "questions")) {
            Some(items) => items,
            None => {
                return Err(schema_error("Soru metni JSON şeması beklenen alanları içermiyor."));
            },
        },
        JsonValue::Arr(items) => items,
        _ => {
            return Err(schema_error("Soru metni JSON kök nesnesi beklenen biçimde değil."));
        },
    };
    let ghost list = items@;
    assert(question_list(*value) == Some(list));
    let mut questions: Vec<ExtractedQuestionCandidate> = Vec::new();
    let mut i: usize = 0;
    while i < items.len()
        invariant
            i <= list.len(),
            list == items@,
            question_list(*value) == Some(list),
            questions@.len() == i,
            forall|j: int|
                0 <= j < i ==> spec_question_item(list[j]) == Some(
                    question_view(#[trigger] questions@[j]),
                ),
        decreases list.len() - i,
    {
        match question_item(&items[i]) {
            Some(q) => {
                questions.push(q);
            },
            None => {
                return Err(schema_error("Soru girdisi boş veya geçersiz."));
            },
        }
        i = i + 1;
    }
    if questions.len() == 0 {
        return Err(schema_error("Soru metni çıktısında geçerli soru bulunamadı."));
    }
    let page_warnings = raw_string_list_of(value, "page_warnings");
    assert forall|j: int| 0 <= j < list.len() implies (#[trigger] spec_question_item(list[j])) is Some by {
        assert(spec_question_item(list[j]) == Some(question_view(questions@[j])));
    }
    let o = QuestionTextExtraction { questions, page_warnings };
    assert(o.questions@.map_values(|q: ExtractedQuestionCandidate| question_view(q)) =~= Seq::new(
        list.len(),
        |j: int| spec_question_item(list[j]).unwrap(),
    ));
    Ok(o)
}

/// Reads a question-text reply: its JSON text goes to `read_json`; a reply
/// that the reader refuses is an invalid-JSON error, one that it reads is
/// checked against the schema.
pub fn parse_question_text_output<F: Fn(&str) -> Result<JsonValue, String>>(text: &str, read_json: F) -> (r:
    Result<QuestionTextExtraction, AppError>)
    requires
        forall|s: &str| read_json.requires((s,)),
    ensures
        ({
            let c = spec_json_candidate(text@);
            match r {
                Ok(o) => exists|s: &str, v: JsonValue|
                    s@ == c && #[trigger] read_json.ensures((s,), Ok(v)) && spec_question_text(v)
                        == Some(
                        (
                            o.questions@.map_values(|q: ExtractedQuestionCandidate| question_view(q)),
                            views(o.page_warnings@),
                        ),
                    ),
                Err(e) => (e.code == AppErrorCode::ModelResponseInvalidJson && exists|s: &str, m: String|
                    s@ == c && #[trigger] read_json.ensures((s,), Err(m))) || (e.code
                    == AppErrorCode::ModelResponseInvalidSchema && exists|s: &str, v: JsonValue|
                    s@ == c && #[trigger] read_json.ensures((s,), Ok(v)) && spec_question_text(v)
                        is None),
            }
        }),
{
    let candidate = json_candidate(text);
    match read_json(candidate.as_str()) {
        Ok(value) => question_text_from_json(&value),
        Err(message) => Err(
            app_error(
                AppErrorCode::ModelResponseInvalidJson,
                "Soru metni JSON çıktısı çözülemedi.",
                Some(crate::errors::concat(&crate::errors::concat3("JSON Parse Error: ", message.as_str(), "\nRaw output received: "), text)),
                Some("Prompt çıktısının strict JSON olduğundan emin olun.".to_string()),
            ),
        ),
    }
}


// ---------------------------------------------------------------------------
// Student identity OCR
// ---------------------------------------------------------------------------
/// What the identity OCR read off a page. The confidence is the JSON number
/// as the model wrote it, where it wrote one.
#[derive(Debug)]
pub struct StudentIdentityOcrOutput {
    pub display_name: Option<String>,
    pub number: Option<String>,
    pub class_name: Option<String>,
    pub confidence: Option<String>,
    pub needs_review: bool,
    pub warnings: Vec<String>,
}

/// The identity read, with the JSON it came from or the reader's error.
#[derive(Debug)]
pub struct StudentIdentityOcrParseOutcome {
    pub output: StudentIdentityOcrOutput,
    pub parsed_json: Option<JsonValue>,
    pub parse_error: Option<String>,
    pub parse_strategy: String,
}

pub type IdentityView = (
    Option<Seq<char>>,
    Option<Seq<char>>,
    Option<Seq<char>>,
    Option<Seq<char>>,
    bool,
    Seq<Seq<char>>,
);

pub open spec fn identity_view(o: StudentIdentityOcrOutput) -> IdentityView {
    (
        opt_view(o.display_name),
        opt_view(o.number),
        opt_view(o.class_name),
        opt_view(o.confidence),
        o.needs_review,
        views(o.warnings@),
    )
}

/// The identity fields of a reply read as JSON. A reply with neither a name
/// nor a number is flagged for review with a warning.
pub open spec fn spec_identity(v: JsonValue) -> IdentityView {
    let name = optional_string_field(v, "displayName"@);
    let number = optional_string_field(v, "number"@);
    let missing = name is None && number is None;
    let listed = string_array_field(v, "warnings"@);
    (
        name,
        number,
        optional_string_field(v, "className"@),
        number_text(v, "confidence"@),
        bool_of(get(v, "needsReview"@)) == Some(true) || missing,
        if missing {
            listed.push("identity_name_or_number_missing"@)
        } else {
            listed
        },
    )
}

/// The identity fields of a reply read as JSON.
pub fn identity_from_json(value: JsonValue) -> (r: StudentIdentityOcrParseOutcome)
    ensures
        identity_view(r.output) == spec_identity(value),
        r.parsed_json == Some(value),
        r.parse_error is None,
        r.parse_strategy@ == "json"@,
{
    let display_name = json_optional_string(&value, "displayName");
    let number = json_optional_string(&value, "number");
    let class_name = json_optional_string(&value, "className");
    let confidence = number_text_of(&value, "confidence");
    let mut warnings = json_string_array(&value, "warnings");
    let missing = display_name.is_none() && number.is_none();
    if missing {
        warnings.push("identity_name_or_number_missing".to_string());
    }
    let flagged = match json_bool(json_get(&value, "needsReview")) {
        Some(b) => b,
        None => false,
    };
    let output = StudentIdentityOcrOutput {
        display_name,
        number,
        class_name,
        confidence,
        needs_review: flagged || missing,
        warnings,
    };
    proof {
        reveal_strlit("identity_name_or_number_missing");
    }
    assert(identity_view(output) =~= spec_identity(value));
    StudentIdentityOcrParseOutcome {
        output,
        parsed_json: Some(value),
        parse_error: None,
        parse_strategy: "json".to_string(),
    }
}

/// The outcome where the reply could not be read as JSON: nothing read,
/// flagged for review.
pub fn identity_parse_failed(error: String) -> (r: StudentIdentityOcrParseOutcome)
    ensures
        identity_view(r.output) == (
            None::<Seq<char>>,
            None::<Seq<char>>,
            None::<Seq<char>>,
            None::<Seq<char>>,
            true,
            seq!["identity_ocr_json_parse_failed"@],
        ),
        r.parsed_json is None,
        r.parse_error == Some(error),
        r.parse_strategy@ == "parse_failed"@,
{
    let warnings = vec!["identity_ocr_json_parse_failed".to_string()];
    let output = StudentIdentityOcrOutput {
        display_name: None,
        number: None,
        class_name: None,
        confidence: None,
        needs_review: true,
        warnings,
    };
    assert(views(output.warnings@) =~= seq!["identity_ocr_json_parse_failed"@]);
    StudentIdentityOcrParseOutcome {
        output,
        parsed_json: None,
        parse_error: Some(error),
        parse_strategy: "parse_failed".to_string(),
    }
}

/// Reads an identity OCR reply: its JSON text goes to `read_json`.
pub fn parse_student_identity_ocr_output<F: Fn(&str) -> Result<JsonValue, String>>(raw: &str, read_json: F) -> (r:
    StudentIdentityOcrParseOutcome)
    requires
        forall|s: &str| read_json.requires((s,)),
    ensures
        exists|s: &str, out: Result<JsonValue, String>|
            s@ == spec_json_candidate(raw@) && #[trigger] read_json.ensures((s,), out) && match out {
                Ok(v) => identity_view(r.output) == spec_identity(v) && r.parsed_json == Some(v)
                    && r.parse_error is None,
                Err(m) => r.parse_error == Some(m) && r.parsed_json is None && r.output.needs_review,
            },
{
    let candidate = json_candidate(raw);
    let out = read_json(candidate.as_str());
    match out {
        Ok(value) => identity_from_json(value),
        Err(message) => identity_parse_failed(message),
    }
}


// ---------------------------------------------------------------------------
// The reply as a whole
// ---------------------------------------------------------------------------
/// A chat reply counts only with a 2xx status; otherwise the server's
/// body is kept as the error's details.
pub fn check_http_status(http_status: u16, response_body: String) -> (r: Result<(), AppError>)
    ensures
        match r {
            Ok(()) => 200 <= http_status < 300,
            Err(e) => !(200 <= http_status < 300) && e.code == AppErrorCode::ModelHealthFailed
                && e.technical_details == Some(response_body),
        },
{
    if 200 <= http_status && http_status < 300 {
        Ok(())
    } else {
        Err(
            app_error(
                AppErrorCode::ModelHealthFailed,
                "Model sunucusu başarılı bir yanıt döndürmedi.",
                Some(response_body),
                Some("Model sunucusunun loglarını kontrol edin.".to_string()),
            ),
        )
    }
}

/// The error for a reply with nothing left once reasoning and fences are
/// removed: reasoning only where the model's content has a `<think>`
/// block, an empty reply otherwise.
pub open spec fn spec_empty_reply_code(content: Seq<char>) -> AppErrorCode {
    if crate::model_text::find(content, "<think>"@) >= 0 {
        AppErrorCode::ModelResponseReasoningOnly
    } else {
        AppErrorCode::ModelResponseEmpty
    }
}

/// A reply whose cleaned text is blank is refused.
pub fn check_reply_content(assistant_content: &str, cleaned: &str) -> (r: Result<(), AppError>)
    ensures
        match r {
            Ok(()) => trim(cleaned@).len() > 0,
            Err(e) => trim(cleaned@).len() == 0 && e.code == spec_empty_reply_code(assistant_content@),
        },
{
    if !trim_str(cleaned).as_str().is_empty() {
        return Ok(());
    }
    let content = crate::text::chars_of(assistant_content);
    let think = crate::text::chars_of("<think>");
    proof {
        reveal_strlit("<think>");
    }
    let code = if crate::model_text::find_chars(&content, &think, 0).is_some() {
        AppErrorCode::ModelResponseReasoningOnly
    } else {
        AppErrorCode::ModelResponseEmpty
    };
    Err(
        app_error(
            code,
            "Model final cevap içeriği üretmedi.",
            Some(assistant_content.to_string()),
            Some("Promptu veya model çıktısını kontrol edin.".to_string()),
        ),
    )
}
} // verus!
