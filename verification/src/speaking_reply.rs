//! Reading the cleaned transcript segments of a speaking recording from the
//! model's reply: the segment list is found under the root, under one of
//! its usual names, or nested under a wrapper; each segment is read as the
//! typed segment where it is one, or field by field under the usual
//! spellings otherwise.
use vstd::prelude::*;
use crate::json::{
    arr_of, bool_of, get, get_any, json_arr, json_bool, json_get, json_get_any, keys_view,
    key_is, lookup, JsonEntry, JsonNumber, JsonValue,
};
use crate::errors::{app_error, AppError, AppErrorCode};
use crate::model_reply::{check_reply_content, spec_empty_reply_code};
use crate::model_text::{
    balanced_candidate, balanced_from, extract_fenced_json_candidate,
    extract_first_balanced_json_candidate, first_balanced_from, is_open_bracket, sanitize_from,
    sanitize_json_control_chars, spec_fenced_json_candidate, spec_strip_reasoning,
    strip_reasoning_and_fences,
};
use crate::seqs::{first_index, lemma_first_index};
use crate::text::{trim, trim_str};

verus! {

broadcast use vstd::std_specs::vec::group_vec_axioms;

/// A cleaned segment of a transcript.
#[derive(Debug)]
pub struct SpeakingTranscriptCleanupOutputSegment {
    pub segment_id: String,
    pub cleaned_text: String,
    pub changes: Vec<JsonValue>,
    pub semantic_change_detected: bool,
    pub needs_review: bool,
}

pub struct SegmentView {
    pub segment_id: Seq<char>,
    pub cleaned_text: Seq<char>,
    pub changes: Seq<JsonValue>,
    pub semantic_change_detected: bool,
    pub needs_review: bool,
}

impl View for SpeakingTranscriptCleanupOutputSegment {
    type V = SegmentView;

    open spec fn view(&self) -> SegmentView {
        SegmentView {
            segment_id: self.segment_id@,
            cleaned_text: self.cleaned_text@,
            changes: self.changes@,
            semantic_change_detected: self.semantic_change_detected,
            needs_review: self.needs_review,
        }
    }
}

pub open spec fn segment_views(v: Seq<SpeakingTranscriptCleanupOutputSegment>) -> Seq<SegmentView> {
    v.map_values(|s: SpeakingTranscriptCleanupOutputSegment| s@)
}

// ---------------------------------------------------------------------------
// Taking entries out of an object
// ---------------------------------------------------------------------------
/// Removing an entry with another key leaves the lookup of `k` as it was.
pub proof fn lemma_lookup_remove(s: Seq<JsonEntry>, i: int, k: Seq<char>)
    requires
        0 <= i < s.len(),
        s[i].key@ != k,
    ensures
        lookup(s.remove(i), k) == lookup(s, k),
{
    let p = key_is(k);
    let t = s.remove(i);
    lemma_first_index(s, p);
    lemma_first_index(t, p);
    let j = first_index(s, p);
    let m = first_index(t, p);
    assert forall|x: int| 0 <= x < t.len() implies t[x] == (if x < i { s[x] } else { s[x + 1] }) by {}
    if j == -1 {
        if m >= 0 {
            if m < i {
                assert(p(s[m]));
            } else {
                assert(p(s[m + 1]));
            }
        }
    } else if j < i {
        assert(p(t[j]));
        if m < j && m >= 0 {
            assert(p(s[m]));
        }
    } else {
        assert(j > i);
        assert(p(t[j - 1]));
        if m >= 0 && m < j - 1 {
            if m < i {
                assert(p(s[m]));
            } else {
                assert(p(s[m + 1]));
            }
        }
    }
}

/// Removes the entry under `key` and returns its value; every other key
/// is looked up as before.
pub fn take_entry(entries: &mut Vec<JsonEntry>, key: &str) -> (r: Option<JsonValue>)
    ensures
        r == lookup(old(entries)@, key@),
        r is None ==> final(entries)@ == old(entries)@,
        forall|k: Seq<char>| k != key@ ==> #[trigger] lookup(final(entries)@, k) == lookup(old(entries)@, k),
{
    let ghost p = key_is(key@);
    let mut i: usize = 0;
    while i < entries.len()
        invariant
            i <= entries@.len(),
            entries@ == old(entries)@,
            p == key_is(key@),
            forall|j: int| 0 <= j < i ==> !p(#[trigger] entries@[j]),
        decreases entries@.len() - i,
    {
        if crate::text::str_eq(entries[i].key.as_str(), key) {
            proof {
                crate::seqs::lemma_first_index_is(entries@, p, i as int);
                assert forall|k: Seq<char>| k != key@ implies #[trigger] lookup(
                    entries@.remove(i as int),
                    k,
                ) == lookup(entries@, k) by {
                    lemma_lookup_remove(entries@, i as int, k);
                }
            }
            let e = entries.remove(i);
            return Some(e.value);
        }
        i = i + 1;
    }
    proof {
        crate::seqs::lemma_first_index_none(entries@, p);
    }
    None
}


/// The value under the first of `keys` that the entries have.
pub open spec fn lookup_any(entries: Seq<JsonEntry>, keys: Seq<Seq<char>>) -> Option<JsonValue>
    decreases keys.len(),
{
    if keys.len() == 0 {
        None
    } else {
        match lookup(entries, keys[0]) {
            Some(x) => Some(x),
            None => lookup_any(entries, keys.drop_first()),
        }
    }
}

/// Takes out the value under the first of `keys` that the entries have.
pub fn take_any(entries: &mut Vec<JsonEntry>, keys: &[&str]) -> (r: Option<JsonValue>)
    ensures
        r == lookup_any(old(entries)@, keys_view(keys@)),
{
    let ghost kv = keys_view(keys@);
    let mut i: usize = 0;
    assert(kv.skip(0) =~= kv);
    while i < keys.len()
        invariant
            i <= keys@.len(),
            kv == keys_view(keys@),
            entries@ == old(entries)@,
            lookup_any(old(entries)@, kv) == lookup_any(old(entries)@, kv.skip(i as int)),
        decreases keys@.len() - i,
    {
        let ghost rest = kv.skip(i as int);
        assert(rest[0] == keys@[i as int]@);
        assert(rest.drop_first() =~= kv.skip(i + 1));
        match take_entry(entries, keys[i]) {
            Some(v) => {
                return Some(v);
            },
            None => {},
        }
        i = i + 1;
    }
    None
}

// ---------------------------------------------------------------------------
// Segments
// ---------------------------------------------------------------------------
/// The text of a field: a string (trimmed, unless blank) or a number's
/// text.
pub open spec fn json_text(o: Option<JsonValue>) -> Option<Seq<char>> {
    match o {
        Some(JsonValue::Str(s)) => if trim(s@).len() > 0 {
            Some(trim(s@))
        } else {
            None
        },
        Some(JsonValue::Num(n)) => Some(n.text@),
        _ => None,
    }
}

/// The first text among `keys`.
pub open spec fn first_text(v: JsonValue, keys: Seq<Seq<char>>) -> Option<Seq<char>>
    decreases keys.len(),
{
    if keys.len() == 0 {
        None
    } else {
        match json_text(get(v, keys[0])) {
            Some(t) => Some(t),
            None => first_text(v, keys.drop_first()),
        }
    }
}

pub open spec fn id_keys() -> Seq<Seq<char>> {
    seq!["segment_id"@, "segmentId"@, "id"@, "index"@]
}

pub open spec fn text_keys() -> Seq<Seq<char>> {
    seq![
        "cleaned_text"@,
        "cleanedText"@,
        "text"@,
        "transcript"@,
        "cleaned_transcript"@,
        "cleanedTranscript"@,
        "content"@,
    ]
}

pub open spec fn change_keys() -> Seq<Seq<char>> {
    seq!["changes"@, "modifications"@, "edits"@]
}

pub open spec fn semantic_keys() -> Seq<Seq<char>> {
    seq!["semantic_change_detected"@, "semanticChangeDetected"@, "semantic_change"@]
}

pub open spec fn review_keys() -> Seq<Seq<char>> {
    seq!["needs_review"@, "needsReview"@, "review"@]
}

/// A segment read field by field: an object with an id and a text under
/// any of their spellings; its changes, semantic-change and review flags
/// where it has them.
pub open spec fn spec_manual_segment(item: JsonValue) -> Option<SegmentView> {
    match item {
        JsonValue::Obj(_) => match (first_text(item, id_keys()), first_text(item, text_keys())) {
            (Some(id), Some(text)) => Some(
                SegmentView {
                    segment_id: id,
                    cleaned_text: text,
                    changes: match arr_of(get_any(item, change_keys())) {
                        Some(c) => c,
                        None => Seq::empty(),
                    },
                    semantic_change_detected: bool_of(get_any(item, semantic_keys())) == Some(true),
                    needs_review: bool_of(get_any(item, review_keys())) == Some(true),
                },
            ),
            _ => None,
        },
        _ => None,
    }
}

pub(crate) fn text_at(v: Option<&JsonValue>) -> (r: Option<String>)
    ensures
        crate::json::opt_view(r) == json_text(crate::json::deref_opt(v)),
{
    match v {
        Some(JsonValue::Str(s)) => {
            let t = trim_str(s.as_str());
            if t.as_str().is_empty() {
                None
            } else {
                Some(t)
            }
        },
        Some(JsonValue::Num(n)) => Some(n.text.clone()),
        _ => None,
    }
}

pub(crate) fn first_text_of(v: &JsonValue, keys: &[&str]) -> (r: Option<String>)
    ensures
        crate::json::opt_view(r) == first_text(*v, keys_view(keys@)),
{
    let ghost kv = keys_view(keys@);
    let mut i: usize = 0;
    assert(kv.skip(0) =~= kv);
    while i < keys.len()
        invariant
            i <= keys@.len(),
            kv == keys_view(keys@),
            first_text(*v, kv) == first_text(*v, kv.skip(i as int)),
        decreases keys@.len() - i,
    {
        let ghost rest = kv.skip(i as int);
        assert(rest[0] == keys@[i as int]@);
        assert(rest.drop_first() =~= kv.skip(i + 1));
        match text_at(json_get(v, keys[i])) {
            Some(t) => {
                return Some(t);
            },
            None => {},
        }
        i = i + 1;
    }
    None
}

proof fn lemma_get_any_obj(entries: Vec<JsonEntry>, keys: Seq<Seq<char>>)
    ensures
        get_any(JsonValue::Obj(entries), keys) == lookup_any(entries@, keys),
    decreases keys.len(),
{
    if keys.len() > 0 {
        lemma_get_any_obj(entries, keys.drop_first());
    }
}

/// A segment read field by field.
pub fn manual_segment(item: JsonValue) -> (r: Option<SpeakingTranscriptCleanupOutputSegment>)
    ensures
        match r {
            Some(seg) => spec_manual_segment(item) == Some(seg@),
            None => spec_manual_segment(item) is None,
        },
{
    let ikeys = ["segment_id", "segmentId", "id", "index"];
    let tkeys = ["cleaned_text", "cleanedText", "text", "transcript", "cleaned_transcript", "cleanedTranscript", "content"];
    let ckeys = ["changes", "modifications", "edits"];
    let skeys = ["semantic_change_detected", "semanticChangeDetected", "semantic_change"];
    let rkeys = ["needs_review", "needsReview", "review"];
    assert(keys_view(ikeys@) == id_keys());
    assert(keys_view(tkeys@) == text_keys());
    assert(keys_view(ckeys@) == change_keys());
    assert(keys_view(skeys@) == semantic_keys());
    assert(keys_view(rkeys@) == review_keys());
    match &item {
        JsonValue::Obj(_) => {},
        _ => {
            return None;
        },
    }
    let id = match first_text_of(&item, &ikeys) {
        Some(t) => t,
        None => {
            return None;
        },
    };
    let text = match first_text_of(&item, &tkeys) {
        Some(t) => t,
        None => {
            return None;
        },
    };
    let semantic = json_bool(json_get_any(&item, &skeys)) == Some(true);
    let review = json_bool(json_get_any(&item, &rkeys)) == Some(true);
    let ghost orig = item;
    let mut entries = match item {
        JsonValue::Obj(entries) => entries,
        _ => Vec::new(),
    };
    proof {
        lemma_get_any_obj(entries, change_keys());
        reveal_strlit("changes");
        reveal_strlit("modifications");
        reveal_strlit("edits");
    }
    let changes = match take_any(&mut entries, &ckeys) {
        Some(JsonValue::Arr(items)) => items,
        _ => Vec::new(),
    };
    Some(
        SpeakingTranscriptCleanupOutputSegment {
            segment_id: id,
            cleaned_text: text,
            changes,
            semantic_change_detected: semantic,
            needs_review: review,
        },
    )
}

// ---------------------------------------------------------------------------
// Segment lists
// ---------------------------------------------------------------------------
/// A reader that gives one answer for each value.
pub open spec fn deterministic<T: Fn(&JsonValue) -> Option<SpeakingTranscriptCleanupOutputSegment>>(typed: T) -> bool {
    forall|x: &JsonValue, a: Option<SpeakingTranscriptCleanupOutputSegment>, b: Option<SpeakingTranscriptCleanupOutputSegment>|
        #[trigger] typed.ensures((x,), a) && #[trigger] typed.ensures((x,), b) ==> a == b
}

/// What the typed reader gives for a value.
pub open spec fn typed_result<T: Fn(&JsonValue) -> Option<SpeakingTranscriptCleanupOutputSegment>>(
    typed: T,
    x: JsonValue,
) -> Option<SpeakingTranscriptCleanupOutputSegment> {
    choose|r: Option<SpeakingTranscriptCleanupOutputSegment>| typed.ensures((&x,), r)
}

/// A segment: the typed one where the value is one, otherwise the one read
/// field by field.
pub open spec fn spec_item<T: Fn(&JsonValue) -> Option<SpeakingTranscriptCleanupOutputSegment>>(
    typed: T,
    x: JsonValue,
) -> Option<SegmentView> {
    match typed_result(typed, x) {
        Some(seg) => Some(seg@),
        None => spec_manual_segment(x),
    }
}

/// The segments of a list: all of them, or none where one is not a segment.
pub open spec fn spec_items<T: Fn(&JsonValue) -> Option<SpeakingTranscriptCleanupOutputSegment>>(
    typed: T,
    items: Seq<JsonValue>,
) -> Option<Seq<SegmentView>> {
    if forall|i: int| 0 <= i < items.len() ==> (#[trigger] spec_item(typed, items[i])) is Some {
        Some(Seq::new(items.len(), |i: int| spec_item(typed, items[i]).unwrap()))
    } else {
        None
    }
}

/// Reads the segments of a list.
pub fn read_items<T: Fn(&JsonValue) -> Option<SpeakingTranscriptCleanupOutputSegment>>(
    items: Vec<JsonValue>,
    typed: &T,
) -> (r: Option<Vec<SpeakingTranscriptCleanupOutputSegment>>)
    requires
        forall|x: &JsonValue| typed.requires((x,)),
        deterministic(*typed),
    ensures
        match r {
            Some(segs) => spec_items(*typed, items@) == Some(segment_views(segs@)),
            None => spec_items(*typed, items@) is None,
        },
{
    let ghost orig = items@;
    let mut rest = items;
    let mut out: Vec<SpeakingTranscriptCleanupOutputSegment> = Vec::new();
    let mut i: usize = 0;
    assert(orig.skip(0) =~= orig);
    while rest.len() > 0
        invariant
            forall|x: &JsonValue| typed.requires((x,)),
            deterministic(*typed),
            orig == items@,
            i <= orig.len(),
            rest@ == orig.skip(i as int),
            out@.len() == i,
            forall|j: int| 0 <= j < i ==> (#[trigger] spec_item(*typed, orig[j])) == Some(out@[j]@),
        decreases rest@.len(),
    {
        let ghost before = rest@;
        assert(i < orig.len());
        assert(orig.len() == items.len());
        let item = rest.remove(0);
        assert(item == orig[i as int]);
        assert(rest@ =~= orig.skip(i + 1));
        let t = typed(&item);
        proof {
            assert(typed.ensures((&item,), t));
            let c = typed_result(*typed, item);
            assert(typed.ensures((&item,), c));
        }
        match t {
            Some(seg) => {
                out.push(seg);
            },
            None => match manual_segment(item) {
                Some(seg) => {
                    out.push(seg);
                },
                None => {
                    assert(spec_item(*typed, orig[i as int]) is None);
                    return None;
                },
            },
        }
        i = i + 1;
    }
    assert(segment_views(out@) =~= Seq::new(orig.len(), |j: int| spec_item(*typed, orig[j]).unwrap()));
    Some(out)
}

pub open spec fn wrapper_keys() -> Seq<Seq<char>> {
    seq!["result"@, "output"@, "response"@, "payload"@]
}

pub open spec fn list_keys() -> Seq<Seq<char>> {
    seq![
        "segments"@,
        "transcriptSegments"@,
        "transcript_segments"@,
        "cleanedSegments"@,
        "cleaned_segments"@,
        "results"@,
        "outputs"@,
        "data"@,
        "items"@,
        "transcript"@,
    ]
}

/// The segments of a reply value: a list's segments; for an object, those
/// found under the first wrapper (`result`, `output`, `response`,
/// `payload`) that holds any, else those of the list under the first of
/// the usual list names it has.
pub open spec fn spec_segments<T: Fn(&JsonValue) -> Option<SpeakingTranscriptCleanupOutputSegment>>(
    typed: T,
    v: JsonValue,
) -> Option<Seq<SegmentView>>
    decreases v, 0nat,
{
    match v {
        JsonValue::Arr(items) => spec_items(typed, items@),
        JsonValue::Obj(entries) => match nested_segments(typed, entries, wrapper_keys()) {
            Some(r) => Some(r),
            None => match arr_of(lookup_any(entries@, list_keys())) {
                Some(items) => spec_items(typed, items),
                None => None,
            },
        },
        _ => None,
    }
}

/// The segments under the first of the wrapper keys `ks` that holds any.
pub open spec fn nested_segments<T: Fn(&JsonValue) -> Option<SpeakingTranscriptCleanupOutputSegment>>(
    typed: T,
    entries: Vec<JsonEntry>,
    ks: Seq<Seq<char>>,
) -> Option<Seq<SegmentView>>
    decreases entries, ks.len(),
{
    if ks.len() == 0 {
        None
    } else {
        let i = first_index(entries@, key_is(ks[0]));
        let here = if 0 <= i < entries@.len() {
            spec_segments(typed, entries@[i].value)
        } else {
            None
        };
        match here {
            Some(r) => Some(r),
            None => nested_segments(typed, entries, ks.drop_first()),
        }
    }
}

proof fn lemma_lookup_any_same(a: Seq<JsonEntry>, b: Seq<JsonEntry>, keys: Seq<Seq<char>>)
    requires
        forall|i: int| 0 <= i < keys.len() ==> lookup(a, #[trigger] keys[i]) == lookup(b, keys[i]),
    ensures
        lookup_any(a, keys) == lookup_any(b, keys),
    decreases keys.len(),
{
    if keys.len() > 0 {
        assert(lookup(a, keys[0]) == lookup(b, keys[0]));
        assert forall|i: int| 0 <= i < keys.drop_first().len() implies lookup(
            a,
            #[trigger] keys.drop_first()[i],
        ) == lookup(b, keys.drop_first()[i]) by {
            assert(keys.drop_first()[i] == keys[i + 1]);
        }
        lemma_lookup_any_same(a, b, keys.drop_first());
    }
}

proof fn lemma_reply_keys_distinct()
    ensures
        forall|i: int, j: int| 0 <= i < j < 4 ==> wrapper_keys()[i] != wrapper_keys()[j],
        forall|i: int, j: int| 0 <= i < 4 && 0 <= j < 10 ==> wrapper_keys()[i] != list_keys()[j],
{
    reveal_strlit("result");
    reveal_strlit("output");
    reveal_strlit("response");
    reveal_strlit("payload");
    reveal_strlit("segments");
    reveal_strlit("transcriptSegments");
    reveal_strlit("transcript_segments");
    reveal_strlit("cleanedSegments");
    reveal_strlit("cleaned_segments");
    reveal_strlit("results");
    reveal_strlit("outputs");
    reveal_strlit("data");
    reveal_strlit("items");
    reveal_strlit("transcript");
    assert forall|i: int, j: int| 0 <= i < j < 4 implies wrapper_keys()[i] != wrapper_keys()[j] by {
        if wrapper_keys()[i] == wrapper_keys()[j] {
            assert(wrapper_keys()[i].len() == wrapper_keys()[j].len());
            assert(wrapper_keys()[i][0] == wrapper_keys()[j][0]);
        }
    }
    assert forall|i: int, j: int| 0 <= i < 4 && 0 <= j < 10 implies wrapper_keys()[i] != list_keys()[j] by {
        if wrapper_keys()[i] == list_keys()[j] {
            assert(wrapper_keys()[i].len() == list_keys()[j].len());
            assert(wrapper_keys()[i][0] == list_keys()[j][0]);
            if wrapper_keys()[i].len() > 1 {
                assert(wrapper_keys()[i][1] == list_keys()[j][1]);
            }
        }
    }
}

/// The segments of a reply value, read as `spec_segments` says.
pub fn segments_from_value<T: Fn(&JsonValue) -> Option<SpeakingTranscriptCleanupOutputSegment>>(
    v: JsonValue,
    typed: &T,
) -> (r: Option<Vec<SpeakingTranscriptCleanupOutputSegment>>)
    requires
        forall|x: &JsonValue| typed.requires((x,)),
        deterministic(*typed),
    ensures
        match r {
            Some(segs) => spec_segments(*typed, v) == Some(segment_views(segs@)),
            None => spec_segments(*typed, v) is None,
        },
    decreases v,
{
    let ghost v0 = v;
    match v {
        JsonValue::Arr(items) => read_items(items, typed),
        JsonValue::Obj(e0) => {
            let wk = ["result", "output", "response", "payload"];
            let lk = [
                "segments",
                "transcriptSegments",
                "transcript_segments",
                "cleanedSegments",
                "cleaned_segments",
                "results",
                "outputs",
                "data",
                "items",
                "transcript",
            ];
            let ghost wkv = keys_view(wk@);
            assert(wkv == wrapper_keys());
            assert(keys_view(lk@) == list_keys());
            proof {
                lemma_reply_keys_distinct();
            }
            let ghost orig = e0;
            let mut entries = e0;
            let mut i: usize = 0;
            assert(wkv.skip(0) =~= wkv);
            while i < 4
                invariant
                    forall|x: &JsonValue| typed.requires((x,)),
                    deterministic(*typed),
                    v0 == JsonValue::Obj(orig),
                    v == v0,
                    wkv == keys_view(wk@),
                    wkv == wrapper_keys(),
                    i <= 4,
                    forall|i: int, j: int| 0 <= i < 4 && 0 <= j < 10 ==> wrapper_keys()[i] != list_keys()[j],
                    forall|i: int, j: int| 0 <= i < j < 4 ==> wrapper_keys()[i] != wrapper_keys()[j],
                    forall|k: Seq<char>|
                        !wkv.take(i as int).contains(k) ==> #[trigger] lookup(entries@, k) == lookup(orig@, k),
                    nested_segments(*typed, orig, wkv) == nested_segments(*typed, orig, wkv.skip(i as int)),
                decreases 4 - i,
            {
                let ghost ks = wkv.skip(i as int);
                assert(ks[0] == wkv[i as int]);
                assert(ks.drop_first() =~= wkv.skip(i + 1));
                assert(!wkv.take(i as int).contains(wkv[i as int])) by {
                    if wkv.take(i as int).contains(wkv[i as int]) {
                        let j = choose|j: int| 0 <= j < i && wkv.take(i as int)[j] == wkv[i as int];
                        assert(wkv[j] == wkv[i as int]);
                    }
                }
                let ghost before = entries@;
                let ghost p = key_is(wkv[i as int]);
                proof {
                    lemma_first_index(orig@, p);
                }
                let taken = take_entry(&mut entries, wk[i]);
                proof {
                    assert forall|k: Seq<char>| !wkv.take(i + 1).contains(k) implies #[trigger] lookup(
                        entries@,
                        k,
                    ) == lookup(orig@, k) by {
                        assert(wkv.take(i + 1) =~= wkv.take(i as int).push(wkv[i as int]));
                        assert(wkv.take(i + 1)[i as int] == wkv[i as int]);
                        assert(k != wkv[i as int]);
                        assert(!wkv.take(i as int).contains(k));
                        assert(lookup(entries@, k) == lookup(before, k));
                    }
                }
                match taken {
                    Some(child) => {
                        proof {
                            let idx = first_index(orig@, p);
                            assert(child == orig@[idx].value);
                            assert(decreases_to!(v0 => v0->Obj_0));
                            assert(v0->Obj_0 == orig);
                            assert(decreases_to!(orig => orig@));
                            assert(decreases_to!(orig@ => orig@[idx]));
                            assert(decreases_to!(v0 => child));
                        }
                        match segments_from_value(child, typed) {
                            Some(r) => {
                                return Some(r);
                            },
                            None => {},
                        }
                    },
                    None => {},
                }
                i = i + 1;
            }
            proof {
                assert(wkv.skip(4) =~= Seq::<Seq<char>>::empty());
                assert forall|j: int| 0 <= j < list_keys().len() implies lookup(
                    entries@,
                    #[trigger] list_keys()[j],
                ) == lookup(orig@, list_keys()[j]) by {
                    assert(wkv.take(4) =~= wkv);
                    if wkv.contains(list_keys()[j]) {
                        let m = choose|m: int| 0 <= m < 4 && wkv[m] == list_keys()[j];
                        assert(wrapper_keys()[m] != list_keys()[j]);
                    }
                }
                lemma_lookup_any_same(entries@, orig@, list_keys());
            }
            match take_any(&mut entries, &lk) {
                Some(JsonValue::Arr(items)) => read_items(items, typed),
                _ => None,
            }
        },
        _ => None,
    }
}

// ---------------------------------------------------------------------------
// The cleanup reply
// ---------------------------------------------------------------------------
/// A JSON reader that gives one answer for each text.
pub open spec fn deterministic_reader<F: Fn(&str) -> Result<JsonValue, String>>(read_json: F) -> bool {
    forall|s1: &str, s2: &str, a: Result<JsonValue, String>, b: Result<JsonValue, String>|
        s1@ == s2@ && #[trigger] read_json.ensures((s1,), a) && #[trigger] read_json.ensures((s2,), b)
            ==> a == b
}

/// The reader may give `r` for the text `t`.
pub open spec fn reads_to<F: Fn(&str) -> Result<JsonValue, String>>(
    read_json: F,
    t: Seq<char>,
    r: Result<JsonValue, String>,
) -> bool {
    exists|s: &str| s@ == t && #[trigger] read_json.ensures((s,), r)
}

/// What the reader gives for a text.
pub open spec fn read_result<F: Fn(&str) -> Result<JsonValue, String>>(read_json: F, t: Seq<char>) -> Result<
    JsonValue,
    String,
> {
    choose|r: Result<JsonValue, String>| #[trigger] reads_to(read_json, t, r)
}

/// The balanced values that start at a bracket of the text from position
/// `i` on, appended to `acc` where not already there.
pub open spec fn more_candidates(t: Seq<char>, i: int, acc: Seq<Seq<char>>) -> Seq<Seq<char>>
    decreases t.len() - i,
{
    if i < 0 || i >= t.len() {
        acc
    } else {
        let next = if is_open_bracket(t[i]) && balanced_from(t, i) is Some && !acc.contains(
            balanced_from(t, i).unwrap(),
        ) {
            acc.push(balanced_from(t, i).unwrap())
        } else {
            acc
        };
        more_candidates(t, i + 1, next)
    }
}

pub open spec fn or_empty(o: Option<Seq<char>>) -> Seq<char> {
    match o {
        Some(c) => c,
        None => Seq::empty(),
    }
}

/// The texts tried in turn: the trimmed reply, the trimmed cleaned reply,
/// its fenced block, its first balanced value, then every other balanced
/// value that starts at a bracket of the cleaned reply.
pub open spec fn spec_cleanup_candidates(raw: Seq<char>) -> Seq<Seq<char>> {
    let cleaned = spec_strip_reasoning(raw);
    more_candidates(
        cleaned,
        0,
        seq![
            trim(raw),
            trim(cleaned),
            or_empty(spec_fenced_json_candidate(raw)),
            or_empty(first_balanced_from(trim(cleaned), 0)),
        ],
    )
}

pub open spec fn segments_of<T: Fn(&JsonValue) -> Option<SpeakingTranscriptCleanupOutputSegment>>(
    typed: T,
    r: Result<JsonValue, String>,
) -> Option<Seq<SegmentView>> {
    match r {
        Ok(v) => spec_segments(typed, v),
        Err(_) => None,
    }
}

/// Trying the candidates from `i` on: each non-blank one is read, and, where
/// it has no segments and control characters in its strings were escaped,
/// read again repaired. The first segments found are the result;
/// otherwise whether any candidate read as JSON.
pub open spec fn spec_attempts<
    F: Fn(&str) -> Result<JsonValue, String>,
    T: Fn(&JsonValue) -> Option<SpeakingTranscriptCleanupOutputSegment>,
>(read_json: F, typed: T, cands: Seq<Seq<char>>, i: int, saw: bool) -> Result<Seq<SegmentView>, bool>
    decreases cands.len() - i,
{
    if i < 0 || i >= cands.len() {
        Err(saw)
    } else {
        let t = trim(cands[i]);
        if t.len() == 0 {
            spec_attempts(read_json, typed, cands, i + 1, saw)
        } else {
            let r1 = read_result(read_json, t);
            let saw1 = saw || r1 is Ok;
            match segments_of(typed, r1) {
                Some(segs) => Ok(segs),
                None => {
                    let rep = sanitize_from(t, 0, false, false);
                    if rep != t {
                        let r2 = read_result(read_json, rep);
                        match segments_of(typed, r2) {
                            Some(segs) => Ok(segs),
                            None => spec_attempts(read_json, typed, cands, i + 1, saw1 || r2 is Ok),
                        }
                    } else {
                        spec_attempts(read_json, typed, cands, i + 1, saw1)
                    }
                },
            }
        }
    }
}

fn contains_string(v: &Vec<String>, x: &String) -> (r: bool)
    ensures
        r == crate::json::views(v@).contains(x@),
{
    let mut i: usize = 0;
    while i < v.len()
        invariant
            i <= v@.len(),
            forall|j: int| 0 <= j < i ==> crate::json::views(v@)[j] != x@,
        decreases v@.len() - i,
    {
        if crate::text::str_eq(v[i].as_str(), x.as_str()) {
            assert(crate::json::views(v@)[i as int] == x@);
            return true;
        }
        i = i + 1;
    }
    false
}

/// The texts tried in turn for a cleanup reply.
pub fn cleanup_candidates(raw: &str, cleaned: &String) -> (r: Vec<String>)
    requires
        cleaned@ == spec_strip_reasoning(raw@),
    ensures
        crate::json::views(r@) == spec_cleanup_candidates(raw@),
{
    let fenced = match extract_fenced_json_candidate(raw) {
        Some(c) => c,
        None => String::new(),
    };
    let balanced = match extract_first_balanced_json_candidate(cleaned.as_str()) {
        Some(c) => c,
        None => String::new(),
    };
    let mut cands = vec![trim_str(raw), trim_str(cleaned.as_str()), fenced, balanced];
    let chars = crate::text::chars_of(cleaned.as_str());
    let ghost t = chars@;
    assert(crate::json::views(cands@) =~= seq![
        trim(raw@),
        trim(cleaned@),
        or_empty(spec_fenced_json_candidate(raw@)),
        or_empty(first_balanced_from(trim(cleaned@), 0)),
    ]);
    let mut i: usize = 0;
    while i < chars.len()
        invariant
            i <= t.len(),
            t == chars@,
            t == cleaned@,
            more_candidates(t, 0, seq![
                trim(raw@),
                trim(cleaned@),
                or_empty(spec_fenced_json_candidate(raw@)),
                or_empty(first_balanced_from(trim(cleaned@), 0)),
            ]) == more_candidates(t, i as int, crate::json::views(cands@)),
        decreases t.len() - i,
    {
        if chars[i] == '{' || chars[i] == '[' {
            match balanced_candidate(&chars, i) {
                Some(c) => {
                    if !contains_string(&cands, &c) {
                        let ghost before = crate::json::views(cands@);
                        cands.push(c);
                        assert(crate::json::views(cands@) =~= before.push(c@));
                    }
                },
                None => {},
            }
        }
        i = i + 1;
    }
    cands
}

/// Reads the cleaned transcript segments of a reply: `read_json` reads
/// JSON text, `typed` reads a segment of the typed shape. A reply with
/// nothing once reasoning and fences are removed is refused as empty (or
/// reasoning only); where no candidate gives segments, the error tells
/// whether any read as JSON.
pub fn parse_speaking_transcript_cleanup_output<
    F: Fn(&str) -> Result<JsonValue, String>,
    T: Fn(&JsonValue) -> Option<SpeakingTranscriptCleanupOutputSegment>,
>(raw_content: &str, read_json: &F, typed: &T) -> (r: Result<
    Vec<SpeakingTranscriptCleanupOutputSegment>,
    AppError,
>)
    requires
        forall|s: &str| read_json.requires((s,)),
        forall|x: &JsonValue| typed.requires((x,)),
        deterministic_reader(*read_json),
        deterministic(*typed),
    ensures
        trim(spec_strip_reasoning(raw_content@)).len() == 0 ==> (r matches Err(e) && e.code
            == spec_empty_reply_code(raw_content@)),
        trim(spec_strip_reasoning(raw_content@)).len() > 0 ==> match spec_attempts(
            *read_json,
            *typed,
            spec_cleanup_candidates(raw_content@),
            0,
            false,
        ) {
            Ok(segs) => r matches Ok(got) && segment_views(got@) == segs,
            Err(saw) => r matches Err(e) && e.code == (if saw {
                AppErrorCode::ModelResponseInvalidSchema
            } else {
                AppErrorCode::ModelResponseInvalidJson
            }),
        },
{
    let cleaned = strip_reasoning_and_fences(raw_content);
    match check_reply_content(raw_content, cleaned.as_str()) {
        Ok(()) => {},
        Err(e) => {
            return Err(e);
        },
    }
    let cands = cleanup_candidates(raw_content, &cleaned);
    let ghost cv = crate::json::views(cands@);
    let mut saw = false;
    let mut i: usize = 0;
    while i < cands.len()
        invariant
            forall|s: &str| read_json.requires((s,)),
            forall|x: &JsonValue| typed.requires((x,)),
            deterministic_reader(*read_json),
            deterministic(*typed),
            cv == crate::json::views(cands@),
            cv == spec_cleanup_candidates(raw_content@),
            trim(spec_strip_reasoning(raw_content@)).len() > 0,
            i <= cv.len(),
            spec_attempts(*read_json, *typed, cv, 0, false) == spec_attempts(*read_json, *typed, cv, i as int, saw),
        decreases cv.len() - i,
    {
        let t = trim_str(cands[i].as_str());
        assert(t@ == trim(cv[i as int]));
        if !t.as_str().is_empty() {
            let ts = t.as_str();
            let out = read_json(ts);
            proof {
                assert(read_json.ensures((ts,), out));
                assert(reads_to(*read_json, t@, out));
                let c = read_result(*read_json, t@);
                let s0 = choose|s: &str| s@ == t@ && #[trigger] read_json.ensures((s,), c);
                assert(c == out);
            }
            let ghost r1 = out;
            match out {
                Ok(v) => {
                    saw = true;
                    match segments_from_value(v, typed) {
                        Some(segs) => {
                            return Ok(segs);
                        },
                        None => {},
                    }
                },
                Err(_) => {},
            }
            let rep = sanitize_json_control_chars(ts);
            if !crate::text::str_eq(rep.as_str(), ts) {
                let rs = rep.as_str();
                let out2 = read_json(rs);
                proof {
                    assert(read_json.ensures((rs,), out2));
                    assert(reads_to(*read_json, rep@, out2));
                    let c = read_result(*read_json, rep@);
                    let s0 = choose|s: &str| s@ == rep@ && #[trigger] read_json.ensures((s,), c);
                    assert(c == out2);
                }
                match out2 {
                    Ok(v) => {
                        saw = true;
                        match segments_from_value(v, typed) {
                            Some(segs) => {
                                return Ok(segs);
                            },
                            None => {},
                        }
                    },
                    Err(_) => {},
                }
            }
        }
        i = i + 1;
    }
    Err(
        app_error(
            if saw {
                AppErrorCode::ModelResponseInvalidSchema
            } else {
                AppErrorCode::ModelResponseInvalidJson
            },
            if saw {
                "Konuşma transkript temizleme çıktısı beklenen segment şemasında değil."
            } else {
                "Konuşma transkript temizleme çıktısı geçerli JSON değil."
            },
            None,
            Some("Temizlemeyi yeniden çalıştırın veya ham transkripti öğretmen onayına gönderin.".to_string()),
        ),
    )
}
} // verus!
