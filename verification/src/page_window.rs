//! Question-to-page mapping and bounded page windows for extraction: the
//! pages a question is expected on, a clamped window around them, and the
//! prepared inputs of those pages.
use vstd::prelude::*;
use std::collections::BTreeMap;
use crate::domain::ModelInputImage;
use vstd::std_specs::iter::IteratorSpec;

verus! {

/// Radius of the page window used when the exact target page does not hold
/// the expected question.
pub const WINDOW_RADIUS: u32 = 1;

// ---------------------------------------------------------------------------
// Question markers per page
// ---------------------------------------------------------------------------
/// `str::split` on one separator character.
pub open spec fn split_spec(s: Seq<char>, sep: char) -> Seq<Seq<char>>
    decreases s.len(),
{
    if s.len() == 0 {
        seq![Seq::<char>::empty()]
    } else {
        let r = split_spec(s.drop_last(), sep);
        if s.last() == sep {
            r.push(Seq::<char>::empty())
        } else {
            r.update(r.len() - 1, r.last().push(s.last()))
        }
    }
}

proof fn lemma_split_nonempty(s: Seq<char>, sep: char)
    ensures
        split_spec(s, sep).len() >= 1,
        split_spec(s, sep).len() <= s.len() + 1,
    decreases s.len(),
{
    if s.len() > 0 {
        lemma_split_nonempty(s.drop_last(), sep);
    }
}

pub open spec fn chars_view(v: Seq<Vec<char>>) -> Seq<Seq<char>> {
    v.map_values(|x: Vec<char>| x@)
}

/// The pieces of `v` between occurrences of `sep`.
pub fn split_chars(v: &Vec<char>, sep: char) -> (r: Vec<Vec<char>>)
    ensures
        chars_view(r@) == split_spec(v@, sep),
{
    let mut done: Vec<Vec<char>> = Vec::new();
    let mut current: Vec<char> = Vec::new();
    let mut i: usize = 0;
    assert(v@.take(0) =~= Seq::<char>::empty());
    assert(chars_view(done@).push(current@) =~= split_spec(v@.take(0), sep));
    while i < v.len()
        invariant
            i <= v.len(),
            chars_view(done@).push(current@) == split_spec(v@.take(i as int), sep),
        decreases v.len() - i,
    {
        let c = v[i];
        let ghost prev = chars_view(done@).push(current@);
        assert(v@.take(i + 1).drop_last() =~= v@.take(i as int));
        assert(v@.take(i + 1).last() == c);
        if c == sep {
            let piece = current;
            done.push(piece);
            current = Vec::new();
            assert(chars_view(done@).push(current@) =~= prev.push(Seq::<char>::empty()));
        } else {
            current.push(c);
            assert(chars_view(done@).push(current@) =~= prev.update(
                prev.len() - 1,
                prev.last().push(c),
            ));
        }
        i = i + 1;
    }
    done.push(current);
    assert(v@.take(v@.len() as int) =~= v@);
    assert(chars_view(done@) =~= split_spec(v@, sep));
    done
}

pub open spec fn is_ascii_digit(c: char) -> bool {
    '0' <= c && c <= '9'
}

/// The value of a run of decimal digits.
pub open spec fn digits_value(s: Seq<char>) -> nat
    decreases s.len(),
{
    if s.len() == 0 {
        0
    } else {
        digits_value(s.drop_last()) * 10 + ((s.last() as u32) - ('0' as u32)) as nat
    }
}

/// The question number a line opens with: after leading white space, an
/// optional `S`/`s`, one to four digits with a non-zero value, then `.` or
/// `)`.
pub open spec fn line_marker(line: Seq<char>) -> Option<nat> {
    let t = line.skip(crate::text::lead_len(line, |c: char| crate::text::is_ws(c)) as int);
    let body = if t.len() > 0 && (t[0] == 'S' || t[0] == 's') {
        t.skip(1)
    } else {
        t
    };
    let d = crate::text::lead_len(body, |c: char| is_ascii_digit(c));
    if 1 <= d <= 4 && d < body.len() && (body[d as int] == '.' || body[d as int] == ')')
        && digits_value(body.take(d as int)) > 0 {
        Some(digits_value(body.take(d as int)))
    } else {
        None
    }
}

/// The question numbers whose markers open a line of `page`.
pub open spec fn page_markers(page: Seq<char>) -> Set<u32> {
    Set::new(
        |n: u32|
            exists|j: int|
                0 <= j < split_spec(page, '\n').len() && line_marker(
                    #[trigger] split_spec(page, '\n')[j],
                ) == Some(n as nat),
    )
}

/// Some line of `page` opens with a question marker.
pub open spec fn has_markers(page: Seq<char>) -> bool {
    exists|n: u32| page_markers(page).contains(n)
}

fn digit_run(v: &Vec<char>, from: usize) -> (d: usize)
    requires
        from <= v.len(),
    ensures
        from + d <= v.len(),
        d == crate::text::lead_len(v@.skip(from as int), |c: char| is_ascii_digit(c)),
{
    let ghost p = |c: char| is_ascii_digit(c);
    let ghost t = v@.skip(from as int);
    let mut d: usize = 0;
    while from + d < v.len() && '0' <= v[from + d] && v[from + d] <= '9'
        invariant
            from + d <= v.len(),
            t == v@.skip(from as int),
            p == (|c: char| is_ascii_digit(c)),
            forall|j: int| 0 <= j < d ==> p(#[trigger] t[j]),
        decreases v.len() - from - d,
    {
        assert(t[d as int] == v@[from + d]);
        d = d + 1;
    }
    proof {
        if d < t.len() {
            assert(t[d as int] == v@[from + d]);
        }
        crate::text::lemma_lead_len_unique(t, p, d as int);
    }
    d
}

proof fn lemma_digits_value_bound(s: Seq<char>)
    requires
        forall|j: int| 0 <= j < s.len() ==> is_ascii_digit(#[trigger] s[j]),
        s.len() <= 4,
    ensures
        digits_value(s) < 10000,
        s.len() <= 3 ==> digits_value(s) < 1000,
        s.len() <= 2 ==> digits_value(s) < 100,
        s.len() <= 1 ==> digits_value(s) < 10,
    decreases s.len(),
{
    if s.len() > 0 {
        lemma_digits_value_bound(s.drop_last());
        assert(is_ascii_digit(s[s.len() - 1]));
    }
}

/// The question number a line opens with, if any.
pub fn line_marker_of(line: &Vec<char>) -> (r: Option<u32>)
    ensures
        match r {
            Some(n) => line_marker(line@) == Some(n as nat),
            None => line_marker(line@) is None,
        },
{
    let ghost ws = |c: char| crate::text::is_ws(c);
    let mut a: usize = 0;
    while a < line.len() && crate::text::char_is_ws(line[a])
        invariant
            a <= line.len(),
            ws == (|c: char| crate::text::is_ws(c)),
            forall|j: int| 0 <= j < a ==> ws(#[trigger] line@[j]),
        decreases line.len() - a,
    {
        assert(ws(line@[a as int]));
        a = a + 1;
    }
    proof {
        crate::text::lemma_lead_len_unique(line@, ws, a as int);
    }
    let ghost t = line@.skip(a as int);
    let mut b = a;
    if b < line.len() && (line[b] == 'S' || line[b] == 's') {
        assert(t[0] == line@[a as int]);
        b = b + 1;
    }
    let ghost body = line@.skip(b as int);
    assert(body =~= (if t.len() > 0 && (t[0] == 'S' || t[0] == 's') { t.skip(1) } else { t }));
    let d = digit_run(line, b);
    if d < 1 || d > 4 || b + d >= line.len() || !(line[b + d] == '.' || line[b + d] == ')') {
        proof {
            if b + d < line.len() {
                assert(body[d as int] == line@[b + d]);
            }
        }
        return None;
    }
    assert(body[d as int] == line@[b + d]);
    let mut n: u32 = 0;
    let mut j: usize = 0;
    proof {
        crate::text::lemma_lead_len(body, |c: char| is_ascii_digit(c));
    }
    while j < d
        invariant
            j <= d <= 4,
            b + d < line.len(),
            body == line@.skip(b as int),
            forall|k: int| 0 <= k < d ==> is_ascii_digit(#[trigger] body[k]),
            n == digits_value(body.take(j as int)),
            n < 10000,
        decreases d - j,
    {
        let c = line[b + j];
        assert(body[j as int] == c);
        assert(body.take(j + 1).drop_last() =~= body.take(j as int));
        proof {
            lemma_digits_value_bound(body.take(j + 1));
        }
        n = n * 10 + ((c as u32) - ('0' as u32));
        j = j + 1;
    }
    if n == 0 {
        return None;
    }
    Some(n)
}

/// The question numbers whose markers open a line of `page`, in increasing
/// order.
pub fn page_marker_numbers(page: &Vec<char>) -> (r: Vec<u32>)
    ensures
        strictly_increasing(r@),
        forall|n: u32| r@.contains(n) <==> page_markers(page@).contains(n),
{
    let lines = split_chars(page, '\n');
    let mut out: Vec<u32> = Vec::new();
    let mut j: usize = 0;
    while j < lines.len()
        invariant
            j <= lines@.len(),
            chars_view(lines@) == split_spec(page@, '\n'),
            strictly_increasing(out@),
            forall|n: u32|
                #[trigger] out@.contains(n) <==> exists|k: int|
                    0 <= k < j && line_marker(split_spec(page@, '\n')[k]) == Some(n as nat),
        decreases lines@.len() - j,
    {
        assert(chars_view(lines@)[j as int] == lines@[j as int]@);
        match line_marker_of(&lines[j]) {
            Some(n) => {
                insert_sorted(&mut out, n);
            },
            None => {},
        }
        j = j + 1;
    }
    proof {
        assert forall|n: u32| out@.contains(n) <==> page_markers(page@).contains(n) by {
            if page_markers(page@).contains(n) {
                let k = choose|k: int|
                    0 <= k < split_spec(page@, '\n').len() && line_marker(
                        #[trigger] split_spec(page@, '\n')[k],
                    ) == Some(n as nat);
                assert(line_marker(split_spec(page@, '\n')[k]) == Some(n as nat));
            }
        }
    }
    out
}

/// The question markers of each page of raw document text (pages end at
/// form feeds), keyed by 1-based page number; pages without a marker are
/// left out.
pub fn question_numbers_by_page(raw_text: &str) -> (r: BTreeMap<u32, Vec<u32>>)
    requires
        raw_text@.len() < u32::MAX,
    ensures
        ({
            let pages = split_spec(raw_text@, '\u{c}');
            &&& forall|k: u32|
                #[trigger] r@.contains_key(k) <==> (1 <= k <= pages.len() && has_markers(
                    pages[k - 1],
                ))
            &&& forall|k: u32|
                #[trigger] r@.contains_key(k) ==> strictly_increasing(r@[k]@) && forall|n: u32|
                    r@[k]@.contains(n) <==> page_markers(pages[k - 1]).contains(n)
        }),
{
    broadcast use vstd::std_specs::btree::group_btree_axioms;

    proof {
        lemma_u32_keys_ordered();
    }
    let chars = crate::text::chars_of(raw_text);
    let pages = split_chars(&chars, '\u{c}');
    proof {
        lemma_split_nonempty(chars@, '\u{c}');
    }
    let ghost ps = split_spec(raw_text@, '\u{c}');
    let mut out: BTreeMap<u32, Vec<u32>> = BTreeMap::new();
    let mut i: usize = 0;
    while i < pages.len()
        invariant
            i <= pages@.len(),
            pages@.len() == ps.len(),
            ps.len() <= raw_text@.len() + 1,
            raw_text@.len() < u32::MAX,
            chars_view(pages@) == ps,
            u32_keys_ordered(),
            forall|k: u32|
                #[trigger] out@.contains_key(k) <==> (1 <= k <= i && has_markers(ps[k - 1])),
            forall|k: u32|
                #[trigger] out@.contains_key(k) ==> strictly_increasing(out@[k]@) && forall|n: u32|
                    out@[k]@.contains(n) <==> page_markers(ps[k - 1]).contains(n),
        decreases pages@.len() - i,
    {
        assert(chars_view(pages@)[i as int] == pages@[i as int]@);
        let numbers = page_marker_numbers(&pages[i]);
        let key: u32 = (i + 1) as u32;
        if numbers.len() > 0 {
            proof {
                assert(numbers@.contains(numbers@[0]));
                assert(page_markers(ps[i as int]).contains(numbers@[0]));
            }
            out.insert(key, numbers);
        } else {
            proof {
                assert forall|n: u32| !page_markers(ps[i as int]).contains(n) by {
                    assert(!numbers@.contains(n));
                }
            }
        }
        i = i + 1;
    }
    out
}

/// The keys of `m`, in increasing order, whose page list holds `q`.
pub open spec fn is_marker_pages(r: Seq<u32>, m: Map<u32, Vec<u32>>, q: u32) -> bool {
    &&& forall|i: int, j: int| 0 <= i < j < r.len() ==> r[i] < r[j]
    &&& forall|p: u32| r.contains(p) <==> (m.contains_key(p) && m[p]@.contains(q))
}

fn vec_contains(v: &Vec<u32>, x: u32) -> (r: bool)
    ensures
        r == v@.contains(x),
{
    let mut i: usize = 0;
    while i < v.len()
        invariant
            i <= v.len(),
            forall|j: int| 0 <= j < i ==> v@[j] != x,
        decreases v.len() - i,
    {
        if v[i] == x {
            assert(v@[i as int] == x);
            return true;
        }
        i = i + 1;
    }
    false
}

/// The keys of the entries of `s` whose page list holds `q`, in order.
pub open spec fn keys_with(s: Seq<(&u32, &Vec<u32>)>, q: u32) -> Seq<u32>
    decreases s.len(),
{
    if s.len() == 0 {
        Seq::empty()
    } else {
        let rest = keys_with(s.drop_last(), q);
        if (*s.last().1)@.contains(q) {
            rest.push(*s.last().0)
        } else {
            rest
        }
    }
}

proof fn lemma_keys_with(s: Seq<(&u32, &Vec<u32>)>, q: u32)
    ensures
        forall|p: u32|
            keys_with(s, q).contains(p) <==> exists|i: int|
                0 <= i < s.len() && *s[i].0 == p && (*s[i].1)@.contains(q),
        (forall|i: int, j: int| 0 <= i < j < s.len() ==> *s[i].0 < *s[j].0) ==> (forall|
            i: int,
            j: int,
        | 0 <= i < j < keys_with(s, q).len() ==> keys_with(s, q)[i] < keys_with(s, q)[j]),
    decreases s.len(),
{
    if s.len() > 0 {
        let t = s.drop_last();
        lemma_keys_with(t, q);
        let rest = keys_with(t, q);
        assert forall|p: u32|
            (exists|i: int| 0 <= i < s.len() && *s[i].0 == p && (*s[i].1)@.contains(q)) implies keys_with(
                s,
                q,
            ).contains(p) by {
            {
                let i = choose|i: int| 0 <= i < s.len() && *s[i].0 == p && (*s[i].1)@.contains(q);
                if i < t.len() {
                    assert(t[i] == s[i]);
                    assert(*t[i].0 == p && (*t[i].1)@.contains(q));
                    assert(rest.contains(p));
                    let k = choose|k: int| 0 <= k < rest.len() && rest[k] == p;
                    assert(keys_with(s, q)[k] == p);
                } else {
                    assert(keys_with(s, q).last() == p);
                    assert(keys_with(s, q)[keys_with(s, q).len() - 1] == p);
                }
            }
        }
        assert forall|p: u32|
            keys_with(s, q).contains(p) implies exists|i: int|
                0 <= i < s.len() && *s[i].0 == p && (*s[i].1)@.contains(q) by {
            let k = choose|k: int| 0 <= k < keys_with(s, q).len() && keys_with(s, q)[k] == p;
            if k < rest.len() {
                assert(rest.contains(p));
                let i = choose|i: int| 0 <= i < t.len() && *t[i].0 == p && (*t[i].1)@.contains(q);
                assert(s[i] == t[i]);
            } else {
                assert(*s[s.len() - 1].0 == p);
            }
        }
        if forall|i: int, j: int| 0 <= i < j < s.len() ==> *s[i].0 < *s[j].0 {
            assert forall|i: int, j: int| 0 <= i < j < t.len() implies *t[i].0 < *t[j].0 by {
                assert(t[i] == s[i] && t[j] == s[j]);
            }
            if (*s.last().1)@.contains(q) {
                assert forall|k: int| 0 <= k < rest.len() implies rest[k] < *s.last().0 by {
                    assert(rest.contains(rest[k]));
                    let i = choose|i: int|
                        0 <= i < t.len() && *t[i].0 == rest[k] && (*t[i].1)@.contains(q);
                    assert(s[i] == t[i]);
                }
            }
        }
    }
}

/// `u32` keys follow the order model that the `BTreeMap` contracts assume.
pub open spec fn u32_keys_ordered() -> bool {
    &&& vstd::std_specs::btree::key_obeys_cmp_spec::<u32>()
    &&& vstd::laws_cmp::obeys_cmp::<u32>()
}

proof fn lemma_u32_keys_ordered()
    ensures
        u32_keys_ordered(),
{
    broadcast use vstd::laws_cmp::group_laws_cmp;
    broadcast use vstd::std_specs::btree::group_btree_axioms;

}

proof fn lemma_iter_keys_increasing(g: Seq<(&u32, &Vec<u32>)>)
    requires
        vstd::std_specs::btree::increasing_seq(g.map_values(|kv: (&u32, &Vec<u32>)| *kv.0)),
    ensures
        forall|i: int, j: int| 0 <= i < j < g.len() ==> *g[i].0 < *g[j].0,
{
    broadcast use vstd::laws_cmp::group_laws_cmp;
    broadcast use vstd::std_specs::btree::group_btree_axioms;

    let s = g.map_values(|kv: (&u32, &Vec<u32>)| *kv.0);
    assert forall|i: int, j: int| 0 <= i < j < g.len() implies *g[i].0 < *g[j].0 by {
        assert(s[i] == *g[i].0);
        assert(s[j] == *g[j].0);
        assert(vstd::std_specs::cmp::OrdSpec::cmp_spec(&s[i], &s[j]) is Less);
    }
}

/// The pages whose detected markers include `question_number`, in
/// increasing order.
pub fn marker_pages(question_number: u32, page_questions: &BTreeMap<u32, Vec<u32>>) -> (r: Vec<u32>)
    ensures
        is_marker_pages(r@, page_questions@, question_number),
{
    broadcast use vstd::std_specs::btree::group_btree_axioms;
    let mut out: Vec<u32> = Vec::new();
    let ghost g = vstd::std_specs::btree::spec_btree_map_iter(page_questions).remaining();
    for entry in it: page_questions.iter()
        invariant
            it.seq() == g,
            out@ == keys_with(it.seq().take(it.index() as int), question_number),
    {
        let (page, numbers) = entry;
        proof {
            assert(it.seq().take(it.index() + 1).drop_last() =~= it.seq().take(it.index() as int));
        }
        if vec_contains(numbers, question_number) {
            out.push(*page);
        }
    }
    proof {
        lemma_u32_keys_ordered();
        assert(g.take(g.len() as int) == g);
        lemma_keys_with(g, question_number);
        lemma_iter_keys_increasing(g);
        assert forall|p: u32|
            (page_questions@.contains_key(p) && page_questions@[p]@.contains(question_number)) implies out@.contains(
                p,
            ) by {
            {
                assert(g.contains((&p, &page_questions@[p])));
                let i = choose|i: int| 0 <= i < g.len() && g[i] == (&p, &page_questions@[p]);
                assert(*g[i].0 == p && (*g[i].1)@.contains(question_number));
            }
        }
        assert forall|p: u32|
            out@.contains(p) implies (page_questions@.contains_key(p)
                && page_questions@[p]@.contains(question_number)) by {
            let i = choose|i: int|
                0 <= i < g.len() && *g[i].0 == p && (*g[i].1)@.contains(question_number);
            assert(page_questions@.contains_key(*g[i].0));
        }
    }
    out
}

// ---------------------------------------------------------------------------
// Linear page estimate
// ---------------------------------------------------------------------------
/// The page a question is expected on when no marker was detected: its
/// share of the document, rounded up and clamped to the page range; `0` for
/// an empty document and `1` when no question count is known.
pub open spec fn spec_estimated_page(question_number: u32, expected_question_count: u32, page_count: u32) -> int {
    if page_count == 0 {
        0
    } else if expected_question_count == 0 {
        1
    } else {
        let q: int = if question_number < 1 { 1 } else { question_number as int };
        let up = (q * page_count + expected_question_count - 1) / (expected_question_count as int);
        if up < 1 {
            1
        } else if up > page_count {
            page_count as int
        } else {
            up
        }
    }
}

/// Deterministic linear page estimate for a question without a detected
/// marker.
pub fn estimated_page_for_question(question_number: u32, expected_question_count: u32, page_count: u32) -> (r: u32)
    ensures
        r == spec_estimated_page(question_number, expected_question_count, page_count),
{
    if page_count == 0 {
        return 0;
    }
    if expected_question_count == 0 {
        return 1;
    }
    let q: u64 = if question_number < 1 { 1 } else { question_number as u64 };
    let e: u64 = expected_question_count as u64;
    assert(q * (page_count as u64) <= 0xffff_ffffu64 * 0xffff_ffffu64) by (nonlinear_arith)
        requires
            q <= 0xffff_ffff,
            page_count <= 0xffff_ffff,
    ;
    let product: u64 = q * (page_count as u64);
    let up: u64 = (product + e - 1) / e;
    if up < 1 {
        1
    } else if up > page_count as u64 {
        page_count
    } else {
        up as u32
    }
}

/// The pages a question is expected on: the pages where its marker was
/// detected, or the linear estimate when no marker names it (none for an
/// empty document).
pub fn candidate_pages_for_question(
    question_number: u32,
    page_questions: &BTreeMap<u32, Vec<u32>>,
    expected_question_count: u32,
    page_count: u32,
) -> (r: Vec<u32>)
    ensures
        ({
            let est = spec_estimated_page(question_number, expected_question_count, page_count);
            if exists|p: u32|
                page_questions@.contains_key(p) && #[trigger] page_questions@[p]@.contains(
                    question_number,
                ) {
                is_marker_pages(r@, page_questions@, question_number)
            } else if est == 0 {
                r@.len() == 0
            } else {
                r@ == seq![est as u32]
            }
        }),
{
    let matched = marker_pages(question_number, page_questions);
    if matched.len() > 0 {
        assert(matched@.contains(matched@[0]));
        return matched;
    }
    assert forall|p: u32|
        !(page_questions@.contains_key(p) && #[trigger] page_questions@[p]@.contains(
            question_number,
        )) by {
        assert(!matched@.contains(p));
    }
    let estimate = estimated_page_for_question(question_number, expected_question_count, page_count);
    if estimate == 0 {
        Vec::new()
    } else {
        vec![estimate]
    }
}

// ---------------------------------------------------------------------------
// Page windows
// ---------------------------------------------------------------------------
pub open spec fn window_lo(page: u32, radius: u32) -> int {
    let d = page - radius;
    if d < 1 {
        1
    } else {
        d
    }
}

pub open spec fn window_hi(page: u32, page_count: u32, radius: u32) -> int {
    let up: int = if page + radius > u32::MAX { u32::MAX as int } else { page + radius };
    if up < page_count {
        up
    } else {
        page_count as int
    }
}

/// `x` lies in the window of one of `pages`.
pub open spec fn in_window(pages: Seq<u32>, page_count: u32, radius: u32, x: int) -> bool {
    exists|i: int|
        0 <= i < pages.len() && window_lo(#[trigger] pages[i], radius) <= x && x <= window_hi(
            pages[i],
            page_count,
            radius,
        )
}

pub open spec fn strictly_increasing(s: Seq<u32>) -> bool {
    forall|i: int, j: int| 0 <= i < j < s.len() ==> s[i] < s[j]
}

/// Inserts `x` into a strictly increasing vector, keeping it so.
fn insert_sorted(v: &mut Vec<u32>, x: u32)
    requires
        strictly_increasing(old(v)@),
    ensures
        strictly_increasing(final(v)@),
        forall|y: u32| #[trigger] final(v)@.contains(y) <==> (old(v)@.contains(y) || y == x),
{
    let mut i: usize = 0;
    while i < v.len() && v[i] < x
        invariant
            i <= v.len(),
            v@ == old(v)@,
            strictly_increasing(v@),
            forall|j: int| 0 <= j < i ==> v@[j] < x,
        decreases v.len() - i,
    {
        i = i + 1;
    }
    if i < v.len() && v[i] == x {
        assert(v@[i as int] == x);
        assert(v@.contains(x));
        return;
    }
    let ghost o = v@;
    v.insert(i, x);
    assert forall|y: u32| #[trigger] v@.contains(y) <==> (o.contains(y) || y == x) by {
        if v@.contains(y) {
            let k = choose|k: int| 0 <= k < v@.len() && v@[k] == y;
            if k < i {
                assert(o[k] == y);
            } else if k > i {
                assert(o[k - 1] == y);
            }
        }
        if o.contains(y) {
            let k = choose|k: int| 0 <= k < o.len() && o[k] == y;
            if k < i {
                assert(v@[k] == y);
            } else {
                assert(v@[k + 1] == y);
            }
        }
        if y == x {
            assert(v@[i as int] == x);
        }
    }
}

proof fn lemma_window_step(
    pages: Seq<u32>,
    k: int,
    page_count: u32,
    radius: u32,
    before: Seq<u32>,
    window: Seq<u32>,
    start: u32,
    end: u32,
    c: u64,
)
    requires
        0 <= k < pages.len(),
        start == window_lo(pages[k], radius),
        end == window_hi(pages[k], page_count, radius),
        c > end,
        forall|x: u32| #[trigger] before.contains(x) <==> in_window(pages.take(k), page_count, radius, x as int),
        forall|x: u32| #[trigger] window.contains(x) <==> (before.contains(x) || (start <= x && x <= end && x < c)),
    ensures
        forall|x: u32| #[trigger] window.contains(x) <==> in_window(pages.take(k + 1), page_count, radius, x as int),
{
    let pre = pages.take(k);
    let next = pages.take(k + 1);
    assert forall|x: u32| #[trigger] window.contains(x) implies in_window(next, page_count, radius, x as int) by {
        if before.contains(x) {
            let i = choose|i: int|
                0 <= i < pre.len() && window_lo(#[trigger] pre[i], radius) <= x && x <= window_hi(
                    pre[i],
                    page_count,
                    radius,
                );
            assert(next[i] == pre[i]);
        } else {
            assert(next[k] == pages[k]);
        }
    }
    assert forall|x: u32| in_window(next, page_count, radius, x as int) implies #[trigger] window.contains(x) by {
        let i = choose|i: int|
            0 <= i < next.len() && window_lo(#[trigger] next[i], radius) <= x && x <= window_hi(
                next[i],
                page_count,
                radius,
            );
        if i < k {
            assert(pre[i] == next[i]);
            assert(in_window(pre, page_count, radius, x as int));
        } else {
            assert(next[i] == pages[k]);
        }
    }
}

/// The given pages widened by `radius` on each side, clamped to the
/// document's page range `1..=page_count` (empty for a document without
/// pages), in increasing order without duplicates.
pub fn expand_page_window(pages: &[u32], page_count: u32, radius: u32) -> (r: Vec<u32>)
    ensures
        strictly_increasing(r@),
        forall|x: u32| #[trigger] r@.contains(x) ==> 1 <= x <= page_count,
        page_count == 0 ==> r@.len() == 0,
        forall|x: u32| r@.contains(x) <==> in_window(pages@, page_count, radius, x as int),
{
    let mut window: Vec<u32> = Vec::new();
    let cap: u32 = page_count;
    let mut k: usize = 0;
    while k < pages.len()
        invariant
            k <= pages@.len(),
            cap == page_count,
            strictly_increasing(window@),
            forall|x: u32| #[trigger] window@.contains(x) <==> in_window(pages@.take(k as int), page_count, radius, x as int),
        decreases pages@.len() - k,
    {
        let page = pages[k];
        let start: u32 = if page <= radius { 1 } else if page - radius < 1 { 1 } else { page - radius };
        let up: u32 = if page > u32::MAX - radius { u32::MAX } else { page + radius };
        let end: u32 = if up < cap { up } else { cap };
        assert(start == window_lo(page, radius));
        assert(end == window_hi(page, page_count, radius));
        let ghost before = window@;
        let mut c: u64 = start as u64;
        while c <= end as u64
            invariant
                start as u64 <= c,
                strictly_increasing(window@),
                forall|x: u32|
                    #[trigger] window@.contains(x) <==> (before.contains(x) || (start <= x && x <= end && x < c)),
            decreases end as u64 + 1 - c,
        {
            insert_sorted(&mut window, c as u32);
            c = c + 1;
        }
        proof {
            lemma_window_step(pages@, k as int, page_count, radius, before, window@, start, end, c);
        }
        k = k + 1;
    }
    assert(pages@.take(pages@.len() as int) == pages@);
    proof {
        if page_count == 0 && window@.len() > 0 {
            assert(window@.contains(window@[0]));
        }
    }
    window
}

// ---------------------------------------------------------------------------
// Input selection
// ---------------------------------------------------------------------------
pub open spec fn on_pages(pages: Seq<u32>) -> spec_fn(ModelInputImage) -> bool {
    |input: ModelInputImage| pages.contains(input.page_number)
}

/// The prepared inputs of the given pages, in document order.
pub fn select_inputs_by_pages(inputs: &[ModelInputImage], pages: &[u32]) -> (r: Vec<ModelInputImage>)
    ensures
        r@ == inputs@.filter(on_pages(pages@)),
{
    let ghost p = on_pages(pages@);
    let mut out: Vec<ModelInputImage> = Vec::new();
    let mut i: usize = 0;
    while i < inputs.len()
        invariant
            i <= inputs@.len(),
            p == on_pages(pages@),
            out@ == inputs@.take(i as int).filter(p),
        decreases inputs@.len() - i,
    {
        proof {
            assert(inputs@.take(i + 1) == inputs@.take(i as int).push(inputs@[i as int]));
            crate::seqs::lemma_filter_push(inputs@.take(i as int), p, inputs@[i as int]);
        }
        if vec_contains_slice(pages, inputs[i].page_number) {
            out.push(inputs[i].clone());
        }
        i = i + 1;
    }
    assert(inputs@.take(inputs@.len() as int) == inputs@);
    out
}

fn vec_contains_slice(v: &[u32], x: u32) -> (r: bool)
    ensures
        r == v@.contains(x),
{
    let mut i: usize = 0;
    while i < v.len()
        invariant
            i <= v@.len(),
            forall|j: int| 0 <= j < i ==> v@[j] != x,
        decreases v@.len() - i,
    {
        if v[i] == x {
            assert(v@[i as int] == x);
            return true;
        }
        i = i + 1;
    }
    false
}

} // verus!
