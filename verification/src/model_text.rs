//! Clean-up of model output text before it is read as JSON: reasoning
//! blocks, code fences, the first balanced JSON value, raw control
//! characters inside JSON strings; and the small labels and scopes the
//! output readers use.
use vstd::prelude::*;
use crate::text::{is_ws, trim, trim_chars, string_from_chars, chars_of, char_is_ws};

verus! {

// ---------------------------------------------------------------------------
// Searching character sequences
// ---------------------------------------------------------------------------
/// `pat` occurs in `s` at position `i`.
pub open spec fn occurs_at(s: Seq<char>, pat: Seq<char>, i: int) -> bool {
    0 <= i && i + pat.len() <= s.len() && s.subrange(i, i + pat.len()) == pat
}

/// The first position at or after `i` where `pat` occurs in `s`, or -1.
pub open spec fn find_from(s: Seq<char>, pat: Seq<char>, i: int) -> int
    decreases s.len() + 1 - i,
{
    if i < 0 || i + pat.len() > s.len() {
        -1
    } else if occurs_at(s, pat, i) {
        i
    } else {
        find_from(s, pat, i + 1)
    }
}

/// `str::find`: the first position of `pat` in `s`, or -1.
pub open spec fn find(s: Seq<char>, pat: Seq<char>) -> int {
    find_from(s, pat, 0)
}

proof fn lemma_find_from(s: Seq<char>, pat: Seq<char>, i: int)
    requires
        0 <= i,
    ensures
        find_from(s, pat, i) == -1 || (i <= find_from(s, pat, i) && occurs_at(
            s,
            pat,
            find_from(s, pat, i),
        )),
        forall|j: int| i <= j && (j < find_from(s, pat, i) || find_from(s, pat, i) == -1) ==> !occurs_at(s, pat, j),
    decreases s.len() + 1 - i,
{
    if i + pat.len() <= s.len() && !occurs_at(s, pat, i) {
        lemma_find_from(s, pat, i + 1);
    }
}

/// The position of the first occurrence of `pat` in `v` at or after
/// `from`.
pub fn find_chars(v: &Vec<char>, pat: &Vec<char>, from: usize) -> (r: Option<usize>)
    requires
        pat@.len() > 0,
    ensures
        match r {
            Some(i) => i as int == find_from(v@, pat@, from as int) && from <= i && i + pat@.len()
                <= v@.len(),
            None => find_from(v@, pat@, from as int) == -1,
        },
{
    let mut i: usize = from;
    proof {
        lemma_find_from(v@, pat@, from as int);
    }
    while i < v.len() && pat.len() <= v.len() - i
        invariant
            from <= i,
            pat@.len() > 0,
            find_from(v@, pat@, i as int) == find_from(v@, pat@, from as int),
        decreases v.len() - i,
    {
        let mut k: usize = 0;
        let limit = v.len() - i;
        while k < pat.len()
            invariant
                k <= pat@.len(),
                pat@.len() <= limit,
                limit == v@.len() - i,
                i + limit == v.len(),
                forall|j: int| 0 <= j < k ==> v@[i + j] == pat@[j],
            ensures
                k == pat@.len() || (k < pat@.len() && v@[i + k] != pat@[k as int]),
                forall|j: int| 0 <= j < k ==> v@[i + j] == pat@[j],
            decreases pat@.len() - k,
        {
            assert(i + k < v.len());
            if v[i + k] != pat[k] {
                break;
            }
            k = k + 1;
        }
        if k == pat.len() {
            assert(v@.subrange(i as int, i + pat@.len()) =~= pat@);
            return Some(i);
        }
        assert(v@.subrange(i as int, i + pat@.len())[k as int] != pat@[k as int]);
        i = i + 1;
    }
    None
}

fn literal_chars(s: &str) -> (v: Vec<char>)
    ensures
        v@ == s@,
{
    chars_of(s)
}

fn slice_chars(v: &Vec<char>, from: usize, to: usize) -> (r: Vec<char>)
    requires
        from <= to <= v@.len(),
    ensures
        r@ == v@.subrange(from as int, to as int),
{
    let mut r: Vec<char> = Vec::new();
    let mut i = from;
    while i < to
        invariant
            from <= i <= to <= v@.len(),
            r@ == v@.subrange(from as int, i as int),
        decreases to - i,
    {
        r.push(v[i]);
        assert(v@.subrange(from as int, i + 1) == v@.subrange(from as int, i as int).push(v@[i as int]));
        i = i + 1;
    }
    r
}

// ---------------------------------------------------------------------------
// Reasoning blocks
// ---------------------------------------------------------------------------
pub open spec fn think_open() -> Seq<char> {
    seq!['<', 't', 'h', 'i', 'n', 'k', '>']
}

pub open spec fn think_close() -> Seq<char> {
    seq!['<', '/', 't', 'h', 'i', 'n', 'k', '>']
}

/// The text with every `<think>…</think>` block removed; an unclosed block
/// drops the rest of the text.
pub open spec fn remove_think(s: Seq<char>) -> Seq<char>
    decreases s.len(),
{
    let i = find(s, think_open());
    if i < 0 || i + 7 > s.len() {
        s
    } else {
        let after = s.skip(i + 7);
        let j = find(after, think_close());
        if j < 0 || j + 8 > after.len() {
            s.take(i)
        } else {
            s.take(i) + remove_think(after.skip(j + 8))
        }
    }
}

proof fn lemma_find_from_shift(s: Seq<char>, pat: Seq<char>, p: int, i: int)
    requires
        0 <= p <= s.len(),
        0 <= i,
    ensures
        find_from(s.skip(p), pat, i) == (if find_from(s, pat, i + p) < 0 {
            -1
        } else {
            find_from(s, pat, i + p) - p
        }),
    decreases s.len() + 1 - p - i,
{
    let t = s.skip(p);
    if i + pat.len() <= t.len() {
        assert(t.subrange(i, i + pat.len()) =~= s.subrange(i + p, i + p + pat.len()));
        if !occurs_at(t, pat, i) {
            lemma_find_from_shift(s, pat, p, i + 1);
        }
    }
}

/// Searching a suffix finds what searching the whole text from the
/// suffix's start finds, shifted.
proof fn lemma_find_shift(s: Seq<char>, pat: Seq<char>, p: int)
    requires
        0 <= p <= s.len(),
    ensures
        find(s.skip(p), pat) == (if find_from(s, pat, p) < 0 {
            -1
        } else {
            find_from(s, pat, p) - p
        }),
{
    lemma_find_from_shift(s, pat, p, 0);
}

fn append_chars(out: &mut Vec<char>, piece: &Vec<char>)
    ensures
        final(out)@ == old(out)@ + piece@,
{
    let mut k: usize = 0;
    while k < piece.len()
        invariant
            k <= piece@.len(),
            out@ == old(out)@ + piece@.take(k as int),
        decreases piece@.len() - k,
    {
        out.push(piece[k]);
        assert(piece@.take(k + 1) == piece@.take(k as int).push(piece@[k as int]));
        k = k + 1;
    }
    assert(piece@.take(piece@.len() as int) == piece@);
}

/// Removes the model's `<think>` reasoning blocks.
pub fn remove_think_blocks(text: &str) -> (r: String)
    ensures
        r@ == remove_think(text@),
{
    let chars = chars_of(text);
    let open = literal_chars("<think>");
    let close = literal_chars("</think>");
    proof {
        reveal_strlit("<think>");
        reveal_strlit("</think>");
        assert(open@ =~= think_open());
        assert(close@ =~= think_close());
        assert(think_open().len() == 7);
        assert(think_close().len() == 8);
    }
    let mut result: Vec<char> = Vec::new();
    let mut pos: usize = 0;
    assert(chars@.skip(0) =~= chars@);
    loop
        invariant_except_break
            pos <= chars@.len(),
            chars@ == text@,
            open@ == think_open(),
            close@ == think_close(),
            result@ + remove_think(chars@.skip(pos as int)) == remove_think(text@),
        ensures
            result@ == remove_think(text@),
        decreases chars@.len() - pos,
    {
        let ghost rest = chars@.skip(pos as int);
        let start = find_chars(&chars, &open, pos);
        proof {
            lemma_find_shift(chars@, think_open(), pos as int);
        }
        match start {
            None => {
                let tail = slice_chars(&chars, pos, chars.len());
                assert(tail@ =~= rest);
                append_chars(&mut result, &tail);
                break;
            },
            Some(s) => {
                let piece = slice_chars(&chars, pos, s);
                assert(piece@ =~= rest.take(s - pos));
                append_chars(&mut result, &piece);
                assert(s + open@.len() <= chars.len());
                let after = s + 7;
                let end = find_chars(&chars, &close, after);
                proof {
                    lemma_find_shift(chars@, think_close(), after as int);
                    assert(rest.skip(s - pos + 7) =~= chars@.skip(after as int));
                }
                match end {
                    None => {
                        break;
                    },
                    Some(e) => {
                        assert(e + close@.len() <= chars.len());
                        proof {
                            assert(chars@.skip(after as int).skip(e - after + 8) =~= chars@.skip(
                                e + 8,
                            ));
                        }
                        pos = e + 8;
                    },
                }
            },
        }
    }
    string_from_chars(&result)
}

// ---------------------------------------------------------------------------
// Balanced JSON values
// ---------------------------------------------------------------------------
pub open spec fn closer(c: char) -> char {
    if c == '{' {
        '}'
    } else {
        ']'
    }
}

/// Scanning `s` from position `i` with the open brackets still to close
/// (`stack`, innermost last) and the string state: the end (exclusive) of
/// the value whose brackets all close, or `None` at a mismatched closer or
/// at the end of the text. Brackets inside strings do not count.
pub open spec fn scan_balanced(
    s: Seq<char>,
    i: int,
    stack: Seq<char>,
    in_string: bool,
    escape: bool,
) -> Option<int>
    decreases s.len() - i,
{
    if i < 0 || i >= s.len() {
        None
    } else {
        let ch = s[i];
        if in_string {
            if escape {
                scan_balanced(s, i + 1, stack, true, false)
            } else if ch == '\\' {
                scan_balanced(s, i + 1, stack, true, true)
            } else if ch == '"' {
                scan_balanced(s, i + 1, stack, false, false)
            } else {
                scan_balanced(s, i + 1, stack, true, false)
            }
        } else if ch == '"' {
            scan_balanced(s, i + 1, stack, true, false)
        } else if ch == '{' || ch == '[' {
            scan_balanced(s, i + 1, stack.push(closer(ch)), false, false)
        } else if ch == '}' || ch == ']' {
            if stack.len() == 0 || stack.last() != ch {
                None
            } else if stack.len() == 1 {
                Some(i + 1)
            } else {
                scan_balanced(s, i + 1, stack.drop_last(), false, false)
            }
        } else {
            scan_balanced(s, i + 1, stack, false, false)
        }
    }
}

/// The trimmed JSON value that starts at `start` and whose brackets
/// balance, if any.
pub open spec fn balanced_from(s: Seq<char>, start: int) -> Option<Seq<char>> {
    match scan_balanced(s, start, Seq::empty(), false, false) {
        Some(e) => Some(trim(s.subrange(start, e))),
        None => None,
    }
}

proof fn lemma_scan_bounds(s: Seq<char>, i: int, stack: Seq<char>, in_string: bool, escape: bool)
    ensures
        scan_balanced(s, i, stack, in_string, escape) matches Some(e) ==> 0 <= i < e <= s.len(),
    decreases s.len() - i,
{
    if 0 <= i < s.len() {
        let ch = s[i];
        lemma_scan_bounds(s, i + 1, stack, true, false);
        lemma_scan_bounds(s, i + 1, stack, true, true);
        lemma_scan_bounds(s, i + 1, stack, false, false);
        if !in_string && (ch == '{' || ch == '[') {
            lemma_scan_bounds(s, i + 1, stack.push(closer(ch)), false, false);
        }
        if stack.len() > 0 {
            lemma_scan_bounds(s, i + 1, stack.drop_last(), false, false);
        }
    }
}

fn balanced_end(chars: &Vec<char>, start: usize) -> (r: Option<usize>)
    ensures
        match r {
            Some(e) => scan_balanced(chars@, start as int, Seq::empty(), false, false) == Some(
                e as int,
            ) && start < e <= chars@.len(),
            None => scan_balanced(chars@, start as int, Seq::empty(), false, false) is None,
        },
{
    let ghost target = scan_balanced(chars@, start as int, Seq::empty(), false, false);
    proof {
        lemma_scan_bounds(chars@, start as int, Seq::empty(), false, false);
    }
    let mut stack: Vec<char> = Vec::new();
    let mut in_string = false;
    let mut escape = false;
    let mut i = start;
    while i < chars.len()
        invariant
            start <= i,
            scan_balanced(chars@, i as int, stack@, in_string, escape) == target,
            target == scan_balanced(chars@, start as int, Seq::empty(), false, false),
            target matches Some(e) ==> start < e <= chars@.len(),
            !in_string ==> !escape,
        decreases chars@.len() - i,
    {
        let ch = chars[i];
        if in_string {
            if escape {
                escape = false;
            } else if ch == '\\' {
                escape = true;
            } else if ch == '"' {
                in_string = false;
            }
        } else if ch == '"' {
            in_string = true;
        } else if ch == '{' {
            stack.push('}');
        } else if ch == '[' {
            stack.push(']');
        } else if ch == '}' || ch == ']' {
            assert(!in_string && chars@[i as int] == ch);
            if stack.len() == 0 || stack[stack.len() - 1] != ch {
                assert(stack@.len() == 0 || stack@.last() != ch);
                assert(scan_balanced(chars@, i as int, stack@, in_string, escape) is None);
                return None;
            }
            if stack.len() == 1 {
                assert(scan_balanced(chars@, i as int, stack@, in_string, escape) == Some(i + 1));
                return Some(i + 1);
            }
            stack.pop();
        }
        i = i + 1;
    }
    None
}

/// The JSON object or array that starts at character position
/// `start_index` of `text`, trimmed, when its brackets balance.
pub fn extract_balanced_json_from_start(text: &str, start_index: usize) -> (r: Option<String>)
    ensures
        match r {
            Some(c) => balanced_from(text@, start_index as int) == Some(c@),
            None => balanced_from(text@, start_index as int) is None,
        },
{
    let chars = chars_of(text);
    balanced_candidate(&chars, start_index)
}

pub fn balanced_candidate(chars: &Vec<char>, start: usize) -> (r: Option<String>)
    ensures
        match r {
            Some(c) => balanced_from(chars@, start as int) == Some(c@),
            None => balanced_from(chars@, start as int) is None,
        },
{
    match balanced_end(chars, start) {
        Some(e) => {
            let piece = slice_chars(chars, start, e);
            let t = trim_chars(&piece);
            Some(string_from_chars(&t))
        },
        None => None,
    }
}

pub open spec fn is_open_bracket(c: char) -> bool {
    c == '{' || c == '['
}

/// The first balanced JSON value found from position `k` on.
pub open spec fn first_balanced_from(t: Seq<char>, k: int) -> Option<Seq<char>>
    decreases t.len() - k,
{
    if k < 0 || k >= t.len() {
        None
    } else if is_open_bracket(t[k]) && balanced_from(t, k) is Some {
        balanced_from(t, k)
    } else {
        first_balanced_from(t, k + 1)
    }
}

/// The first object or array in the trimmed text whose brackets balance.
pub fn extract_first_balanced_json_candidate(text: &str) -> (r: Option<String>)
    ensures
        match r {
            Some(c) => first_balanced_from(trim(text@), 0) == Some(c@),
            None => first_balanced_from(trim(text@), 0) is None,
        },
{
    let chars = chars_of(text);
    let t = trim_chars(&chars);
    let mut k: usize = 0;
    while k < t.len()
        invariant
            k <= t@.len(),
            t@ == trim(text@),
            first_balanced_from(t@, k as int) == first_balanced_from(t@, 0),
        decreases t@.len() - k,
    {
        if t[k] == '{' || t[k] == '[' {
            match balanced_candidate(&t, k) {
                Some(c) => {
                    return Some(c);
                },
                None => {},
            }
        }
        k = k + 1;
    }
    None
}

// ---------------------------------------------------------------------------
// Code fences
// ---------------------------------------------------------------------------
pub open spec fn fence() -> Seq<char> {
    seq!['`', '`', '`']
}

pub open spec fn json_fence() -> Seq<char> {
    seq!['`', '`', '`', 'j', 's', 'o', 'n']
}

/// The trimmed text between the first `opener` and the next fence after
/// it, when both are there.
pub open spec fn fenced_after(t: Seq<char>, opener: Seq<char>) -> Option<Seq<char>> {
    let i = find(t, opener);
    if i < 0 {
        None
    } else {
        let after = t.skip(i + opener.len());
        let e = find(after, fence());
        if e < 0 {
            None
        } else {
            Some(trim(after.take(e)))
        }
    }
}

fn fenced(t: &Vec<char>, opener: &Vec<char>, close: &Vec<char>) -> (r: Option<Vec<char>>)
    requires
        opener@.len() > 0,
        close@ == fence(),
    ensures
        match r {
            Some(c) => fenced_after(t@, opener@) == Some(c@),
            None => fenced_after(t@, opener@) is None,
        },
{
    assert(fence().len() == 3);
    match find_chars(t, opener, 0) {
        None => None,
        Some(i) => {
            assert(i + opener@.len() <= t.len());
            let after = i + opener.len();
            match find_chars(t, close, after) {
                None => {
                    proof {
                        lemma_find_shift(t@, fence(), after as int);
                    }
                    None
                },
                Some(e) => {
                    proof {
                        lemma_find_shift(t@, fence(), after as int);
                    }
                    let piece = slice_chars(t, after, e);
                    assert(piece@ =~= t@.skip(after as int).take(e - after));
                    Some(trim_chars(&piece))
                },
            }
        },
    }
}

/// The trimmed text inside the first code fence (a `json` fence when the
/// text has one), if the fence is closed.
pub open spec fn spec_fenced_json_candidate(raw: Seq<char>) -> Option<Seq<char>> {
    let t = trim(raw);
    if find(t, json_fence()) >= 0 {
        fenced_after(t, json_fence())
    } else {
        fenced_after(t, fence())
    }
}

fn fence_chars() -> (v: Vec<char>)
    ensures
        v@ == fence(),
{
    let v = vec!['`', '`', '`'];
    assert(v@ =~= fence());
    v
}

fn json_fence_chars() -> (v: Vec<char>)
    ensures
        v@ == json_fence(),
{
    let v = vec!['`', '`', '`', 'j', 's', 'o', 'n'];
    assert(v@ =~= json_fence());
    v
}

/// The JSON inside the first code fence of a model answer.
pub fn extract_fenced_json_candidate(raw: &str) -> (r: Option<String>)
    ensures
        match r {
            Some(c) => spec_fenced_json_candidate(raw@) == Some(c@),
            None => spec_fenced_json_candidate(raw@) is None,
        },
{
    let chars = chars_of(raw);
    let t = trim_chars(&chars);
    let close = fence_chars();
    let json = json_fence_chars();
    let opener = if find_chars(&t, &json, 0).is_some() {
        json
    } else {
        fence_chars()
    };
    match fenced(&t, &opener, &close) {
        Some(c) => Some(string_from_chars(&c)),
        None => None,
    }
}

/// Index of the first occurrence of `c`, or -1.
pub open spec fn first_char(t: Seq<char>, c: char) -> int {
    find(t, seq![c])
}

/// Index of the last occurrence of `c`, or -1.
pub open spec fn last_char(t: Seq<char>, c: char) -> int
    decreases t.len(),
{
    if t.len() == 0 {
        -1
    } else if t.last() == c {
        t.len() - 1
    } else {
        last_char(t.drop_last(), c)
    }
}

/// The index of the first `{` or `[`, or -1.
pub open spec fn first_open(t: Seq<char>, k: int) -> int
    decreases t.len() - k,
{
    if k < 0 || k >= t.len() {
        -1
    } else if is_open_bracket(t[k]) {
        k
    } else {
        first_open(t, k + 1)
    }
}

/// The JSON payload of a model answer: the reasoning blocks removed, then
/// the first closed `json` fence, the first closed fence, the balanced value
/// at the first bracket, the span from the first `{` to the last `}`, or
/// the trimmed text itself, whichever applies first.
pub open spec fn spec_strip_reasoning(text: Seq<char>) -> Seq<char> {
    let t = trim(remove_think(text));
    let k = first_open(t, 0);
    let a = first_char(t, '{');
    let b = last_char(t, '}');
    if fenced_after(t, json_fence()) is Some {
        fenced_after(t, json_fence()).unwrap()
    } else if fenced_after(t, fence()) is Some {
        fenced_after(t, fence()).unwrap()
    } else if k >= 0 && balanced_from(t, k) is Some {
        balanced_from(t, k).unwrap()
    } else if a >= 0 && b >= 0 && a < b {
        trim(t.subrange(a, b + 1))
    } else {
        t
    }
}

pub fn last_index_of(t: &Vec<char>, c: char) -> (r: Option<usize>)
    ensures
        match r {
            Some(i) => i < t@.len() && i as int == last_char(t@, c),
            None => last_char(t@, c) == -1,
        },
{
    let mut n = t.len();
    assert(t@.take(n as int) =~= t@);
    while n > 0
        invariant
            n <= t@.len(),
            last_char(t@.take(n as int), c) == last_char(t@, c),
        decreases n,
    {
        assert(t@.take(n as int).drop_last() =~= t@.take(n - 1));
        if t[n - 1] == c {
            return Some(n - 1);
        }
        n = n - 1;
    }
    None
}

pub fn first_open_index(t: &Vec<char>) -> (r: Option<usize>)
    ensures
        match r {
            Some(k) => k < t@.len() && k as int == first_open(t@, 0),
            None => first_open(t@, 0) == -1,
        },
{
    let mut k: usize = 0;
    while k < t.len()
        invariant
            k <= t@.len(),
            first_open(t@, k as int) == first_open(t@, 0),
        decreases t@.len() - k,
    {
        if t[k] == '{' || t[k] == '[' {
            return Some(k);
        }
        k = k + 1;
    }
    None
}

/// Removes reasoning blocks and wrappers from a model answer and returns
/// its JSON payload.
pub fn strip_reasoning_and_fences(text: &str) -> (r: String)
    ensures
        r@ == spec_strip_reasoning(text@),
{
    let without_think = remove_think_blocks(text);
    let chars = chars_of(without_think.as_str());
    let t = trim_chars(&chars);
    let close = fence_chars();
    let json = json_fence_chars();
    match fenced(&t, &json, &close) {
        Some(c) => {
            return string_from_chars(&c);
        },
        None => {},
    }
    let plain = fence_chars();
    match fenced(&t, &plain, &close) {
        Some(c) => {
            return string_from_chars(&c);
        },
        None => {},
    }
    match first_open_index(&t) {
        Some(k) => match balanced_candidate(&t, k) {
            Some(c) => {
                return c;
            },
            None => {},
        },
        None => {},
    }
    let brace = vec!['{'];
    assert(brace@ =~= seq!['{']);
    match find_chars(&t, &brace, 0) {
        Some(a) => match last_index_of(&t, '}') {
            Some(b) => {
                if a < b {
                    let piece = slice_chars(&t, a, b + 1);
                    let trimmed = trim_chars(&piece);
                    return string_from_chars(&trimmed);
                }
            },
            None => {},
        },
        None => {},
    }
    string_from_chars(&t)
}

// ---------------------------------------------------------------------------
// Control characters inside JSON strings
// ---------------------------------------------------------------------------
/// `char::is_control`: the Unicode `Cc` category.
pub open spec fn is_control(c: char) -> bool {
    (c as u32) <= 0x1f || (0x7f <= (c as u32) && (c as u32) <= 0x9f)
}

pub open spec fn hex_char(d: nat) -> char {
    if d < 10 {
        (('0' as u32) + d) as char
    } else {
        (('a' as u32) + d - 10) as char
    }
}

/// `\u` and four lower-case hex digits of `c`.
pub open spec fn unicode_escape(c: char) -> Seq<char> {
    let n = c as u32 as nat;
    seq![
        '\\',
        'u',
        hex_char((n / 4096) % 16),
        hex_char((n / 256) % 16),
        hex_char((n / 16) % 16),
        hex_char(n % 16),
    ]
}

/// What one character turns into: inside a string, an unescaped newline,
/// carriage return, tab or other control character is written as its JSON
/// escape; everything else is kept.
pub open spec fn sanitized_char(ch: char, in_string: bool, escape: bool) -> Seq<char> {
    if in_string && !escape && ch == '\n' {
        seq!['\\', 'n']
    } else if in_string && !escape && ch == '\r' {
        seq!['\\', 'r']
    } else if in_string && !escape && ch == '\t' {
        seq!['\\', 't']
    } else if in_string && !escape && ch != '\\' && ch != '"' && is_control(ch) {
        unicode_escape(ch)
    } else {
        seq![ch]
    }
}

/// The string state after one character.
pub open spec fn next_string_state(ch: char, in_string: bool, escape: bool) -> (bool, bool) {
    if in_string {
        if escape {
            (true, false)
        } else if ch == '\\' {
            (true, true)
        } else if ch == '"' {
            (false, false)
        } else {
            (true, false)
        }
    } else {
        (ch == '"', false)
    }
}

/// The text from position `i` on, sanitized with the given string state.
pub open spec fn sanitize_from(s: Seq<char>, i: int, in_string: bool, escape: bool) -> Seq<char>
    decreases s.len() - i,
{
    if i < 0 || i >= s.len() {
        Seq::empty()
    } else {
        let st = next_string_state(s[i], in_string, escape);
        sanitized_char(s[i], in_string, escape) + sanitize_from(s, i + 1, st.0, st.1)
    }
}

fn hex_digit_char(d: u32) -> (c: char)
    requires
        d < 16,
    ensures
        c == hex_char(d as nat),
{
    if d < 10 {
        let b: u8 = (48 + d) as u8;
        b as char
    } else {
        let b: u8 = (87 + d) as u8;
        b as char
    }
}

/// Escapes the raw control characters that models leave inside JSON string
/// literals, so that the text parses.
pub fn sanitize_json_control_chars(text: &str) -> (r: String)
    ensures
        r@ == sanitize_from(text@, 0, false, false),
{
    let chars = chars_of(text);
    let mut out: Vec<char> = Vec::new();
    let mut in_string = false;
    let mut escape = false;
    let mut i: usize = 0;
    while i < chars.len()
        invariant
            i <= chars@.len(),
            chars@ == text@,
            !in_string ==> !escape,
            out@ + sanitize_from(chars@, i as int, in_string, escape) == sanitize_from(
                text@,
                0,
                false,
                false,
            ),
        decreases chars@.len() - i,
    {
        let ch = chars[i];
        let ghost before = out@;
        let ghost s0 = in_string;
        let ghost e0 = escape;
        let ghost st = next_string_state(ch, in_string, escape);
        if in_string {
            if escape {
                escape = false;
                out.push(ch);
            } else if ch == '\\' {
                escape = true;
                out.push(ch);
            } else if ch == '"' {
                in_string = false;
                out.push(ch);
            } else if ch == '\n' {
                out.push('\\');
                out.push('n');
            } else if ch == '\r' {
                out.push('\\');
                out.push('r');
            } else if ch == '\t' {
                out.push('\\');
                out.push('t');
            } else if (ch as u32) <= 0x1f || (0x7f <= (ch as u32) && (ch as u32) <= 0x9f) {
                let n = ch as u32;
                out.push('\\');
                out.push('u');
                out.push(hex_digit_char((n / 4096) % 16));
                out.push(hex_digit_char((n / 256) % 16));
                out.push(hex_digit_char((n / 16) % 16));
                out.push(hex_digit_char(n % 16));
            } else {
                out.push(ch);
            }
        } else {
            if ch == '"' {
                in_string = true;
            }
            out.push(ch);
        }
        assert(out@ =~= before + sanitized_char(ch, s0, e0));
        assert(in_string == st.0 && escape == st.1);
        assert(sanitize_from(chars@, i as int, s0, e0) == sanitized_char(ch, s0, e0)
            + sanitize_from(chars@, i + 1, st.0, st.1));
        assert(out@ + sanitize_from(chars@, i + 1, st.0, st.1) =~= before + sanitize_from(
            chars@,
            i as int,
            s0,
            e0,
        ));
        i = i + 1;
    }
    string_from_chars(&out)
}

// ---------------------------------------------------------------------------
// Labels and warning codes
// ---------------------------------------------------------------------------
#[derive(PartialEq, Eq, Structural, Clone, Copy, Debug)]
pub enum OcrImagePreprocessMode {
    Original,
    CleanGrayscale,
    HandwritingEnhanced,
    HighContrast,
    HighContrastBw,
}

pub open spec fn spec_preprocess_mode_label(mode: OcrImagePreprocessMode) -> Seq<char> {
    match mode {
        OcrImagePreprocessMode::Original => "orijinal"@,
        OcrImagePreprocessMode::CleanGrayscale => "temiz gri ton"@,
        OcrImagePreprocessMode::HandwritingEnhanced => "el yazısı güçlendirildi"@,
        OcrImagePreprocessMode::HighContrast => "yüksek kontrast"@,
        OcrImagePreprocessMode::HighContrastBw => "yüksek kontrast siyah-beyaz"@,
    }
}

/// The Turkish label of an image preprocessing mode, as shown to the model.
pub fn preprocess_mode_label(mode: &OcrImagePreprocessMode) -> (r: &'static str)
    ensures
        r@ == spec_preprocess_mode_label(*mode),
{
    match mode {
        OcrImagePreprocessMode::Original => "orijinal",
        OcrImagePreprocessMode::CleanGrayscale => "temiz gri ton",
        OcrImagePreprocessMode::HandwritingEnhanced => "el yazısı güçlendirildi",
        OcrImagePreprocessMode::HighContrast => "yüksek kontrast",
        OcrImagePreprocessMode::HighContrastBw => "yüksek kontrast siyah-beyaz",
    }
}

/// The warning recorded when a model answer used `alias` for `field`.
pub fn normalize_alias_warning(field: &str, alias: &str) -> (r: String)
    ensures
        r@ == field@ + "_alias:"@ + alias@,
{
    crate::errors::concat3(field, "_alias:", alias)
}

/// The warning code for an uncertain critical keyword.
pub fn critical_keyword_ocr_uncertain_warning() -> (r: &'static str)
    ensures
        r@ == "critical_keyword_ocr_uncertain"@,
{
    "critical_keyword_ocr_uncertain"
}

pub open spec fn spec_normalized_warning(code: Seq<char>) -> Seq<char> {
    if code == "ocr_critical_keyword_uncertain"@ || code == "critical_keyword_ocr_uncertain"@ {
        "critical_keyword_ocr_uncertain"@
    } else {
        code
    }
}

/// Maps both spellings of the uncertain-critical-keyword warning to one
/// code; other codes are kept.
pub fn normalize_ocr_warning_code(code: &str) -> (r: String)
    ensures
        r@ == spec_normalized_warning(code@),
{
    if crate::text::str_eq(code, "ocr_critical_keyword_uncertain") || crate::text::str_eq(
        code,
        "critical_keyword_ocr_uncertain",
    ) {
        critical_keyword_ocr_uncertain_warning().to_owned()
    } else {
        code.to_owned()
    }
}

// ---------------------------------------------------------------------------
// Correction scopes
// ---------------------------------------------------------------------------
#[derive(PartialEq, Eq, Structural, Clone, Copy, Debug)]
pub enum StudentAnswerOcrIssueCorrectionScope {
    SingleWord,
    ShortPhrase,
}

/// The number of white-space separated words of `s`
/// (`str::split_whitespace().count()`).
pub open spec fn word_count(s: Seq<char>) -> nat
    decreases s.len(),
{
    if s.len() == 0 {
        0
    } else {
        let starts_word = !is_ws(s.last()) && (s.len() == 1 || is_ws(s[s.len() - 2]));
        word_count(s.drop_last()) + if starts_word {
            1nat
        } else {
            0nat
        }
    }
}

fn count_words(s: &str) -> (r: usize)
    ensures
        r == word_count(s@),
{
    let chars = chars_of(s);
    let mut count: usize = 0;
    let mut i: usize = 0;
    while i < chars.len()
        invariant
            i <= chars@.len(),
            chars@ == s@,
            count == word_count(chars@.take(i as int)),
            count <= i,
        decreases chars@.len() - i,
    {
        let prefix_ws = i == 0 || char_is_ws(chars[i - 1]);
        let ghost next = chars@.take(i + 1);
        assert(next.drop_last() =~= chars@.take(i as int));
        if i > 0 {
            assert(next[next.len() - 2] == chars@[i - 1]);
        }
        if !char_is_ws(chars[i]) && prefix_ws {
            count = count + 1;
        }
        i = i + 1;
    }
    assert(chars@.take(chars@.len() as int) =~= chars@);
    count
}

/// A correction of a one-word span may change one word; a longer span, a
/// short phrase.
pub fn issue_scope_from_text(text: &str) -> (r: StudentAnswerOcrIssueCorrectionScope)
    ensures
        r == (if word_count(text@) <= 1 {
            StudentAnswerOcrIssueCorrectionScope::SingleWord
        } else {
            StudentAnswerOcrIssueCorrectionScope::ShortPhrase
        }),
{
    if count_words(text) <= 1 {
        StudentAnswerOcrIssueCorrectionScope::SingleWord
    } else {
        StudentAnswerOcrIssueCorrectionScope::ShortPhrase
    }
}

/// Whether a suggested correction stays within its scope: at most one
/// word for a single word, at most two for a short phrase; no suggestion is
/// always allowed.
pub fn scope_allows_text(
    scope: &StudentAnswerOcrIssueCorrectionScope,
    suggested_text: Option<&str>,
) -> (r: bool)
    ensures
        r == match suggested_text {
            None => true,
            Some(t) => match scope {
                StudentAnswerOcrIssueCorrectionScope::SingleWord => word_count(t@) <= 1,
                StudentAnswerOcrIssueCorrectionScope::ShortPhrase => word_count(t@) <= 2,
            },
        },
{
    match suggested_text {
        None => true,
        Some(text) => {
            let n = count_words(text);
            match scope {
                StudentAnswerOcrIssueCorrectionScope::SingleWord => n <= 1,
                StudentAnswerOcrIssueCorrectionScope::ShortPhrase => n <= 2,
            }
        },
    }
}

// ---------------------------------------------------------------------------
// Answer types
// ---------------------------------------------------------------------------
/// The kind of answer a question expects.
#[derive(PartialEq, Eq, Structural, Clone, Copy, Debug)]
pub enum AnswerType {
    GeneralText,
    ShortText,
    Essay,
    Table,
    CorrectionTable,
    FillBlank,
    Matching,
    MultipleChoice,
    TrueFalse,
    SequenceOrdering,
    Numeric,
    DiagramLabeling,
    SentenceAnnotation,
    GrammarAnalysis,
}

/// The answer type a label names, read trimmed and in ASCII lower case.
pub open spec fn spec_answer_type(key: Seq<char>) -> Option<AnswerType> {
    if key == "general_text"@ {
        Some(AnswerType::GeneralText)
    } else if key == "short_text"@ {
        Some(AnswerType::ShortText)
    } else if key == "essay"@ {
        Some(AnswerType::Essay)
    } else if key == "table"@ {
        Some(AnswerType::Table)
    } else if key == "correction_table"@ {
        Some(AnswerType::CorrectionTable)
    } else if key == "fill_blank"@ {
        Some(AnswerType::FillBlank)
    } else if key == "matching"@ {
        Some(AnswerType::Matching)
    } else if key == "multiple_choice"@ {
        Some(AnswerType::MultipleChoice)
    } else if key == "true_false"@ {
        Some(AnswerType::TrueFalse)
    } else if key == "ordering"@ {
        Some(AnswerType::SequenceOrdering)
    } else if key == "numeric"@ {
        Some(AnswerType::Numeric)
    } else if key == "diagram_labeling"@ {
        Some(AnswerType::DiagramLabeling)
    } else if key == "sentence_annotation"@ {
        Some(AnswerType::SentenceAnnotation)
    } else if key == "grammar_analysis"@ {
        Some(AnswerType::GrammarAnalysis)
    } else {
        None
    }
}

/// The answer type a model's label names, if any.
pub fn answer_type_from_label(label: &str) -> (r: Option<AnswerType>)
    ensures
        r == spec_answer_type(crate::text::lower_seq(trim(label@))),
{
    let trimmed = crate::text::trim_str(label);
    let key_string = crate::text::lower_str(trimmed.as_str());
    let key = key_string.as_str();
    proof {
        reveal_strlit("general_text");
        reveal_strlit("short_text");
        reveal_strlit("essay");
        reveal_strlit("table");
        reveal_strlit("correction_table");
        reveal_strlit("fill_blank");
        reveal_strlit("matching");
        reveal_strlit("multiple_choice");
        reveal_strlit("true_false");
        reveal_strlit("ordering");
        reveal_strlit("numeric");
        reveal_strlit("diagram_labeling");
        reveal_strlit("sentence_annotation");
        reveal_strlit("grammar_analysis");
    }
    if crate::text::str_eq(key, "general_text") {
        Some(AnswerType::GeneralText)
    } else if crate::text::str_eq(key, "short_text") {
        Some(AnswerType::ShortText)
    } else if crate::text::str_eq(key, "essay") {
        Some(AnswerType::Essay)
    } else if crate::text::str_eq(key, "table") {
        Some(AnswerType::Table)
    } else if crate::text::str_eq(key, "correction_table") {
        Some(AnswerType::CorrectionTable)
    } else if crate::text::str_eq(key, "fill_blank") {
        Some(AnswerType::FillBlank)
    } else if crate::text::str_eq(key, "matching") {
        Some(AnswerType::Matching)
    } else if crate::text::str_eq(key, "multiple_choice") {
        Some(AnswerType::MultipleChoice)
    } else if crate::text::str_eq(key, "true_false") {
        Some(AnswerType::TrueFalse)
    } else if crate::text::str_eq(key, "ordering") {
        Some(AnswerType::SequenceOrdering)
    } else if crate::text::str_eq(key, "numeric") {
        Some(AnswerType::Numeric)
    } else if crate::text::str_eq(key, "diagram_labeling") {
        Some(AnswerType::DiagramLabeling)
    } else if crate::text::str_eq(key, "sentence_annotation") {
        Some(AnswerType::SentenceAnnotation)
    } else if crate::text::str_eq(key, "grammar_analysis") {
        Some(AnswerType::GrammarAnalysis)
    } else {
        None
    }
}

} // verus!
