//! Character-level helpers shared by the identifier, host and model-output
//! rules. Every function here works on the character view (`Seq<char>`) of a
//! string.
use vstd::prelude::*;

verus! {

/// Unicode `White_Space` characters (what `char::is_whitespace` accepts).
pub open spec fn is_ws(c: char) -> bool {
    ||| ('\u{9}' <= c && c <= '\u{d}')
    ||| c == ' '
    ||| c == '\u{85}'
    ||| c == '\u{a0}'
    ||| c == '\u{1680}'
    ||| ('\u{2000}' <= c && c <= '\u{200a}')
    ||| c == '\u{2028}'
    ||| c == '\u{2029}'
    ||| c == '\u{202f}'
    ||| c == '\u{205f}'
    ||| c == '\u{3000}'
}

pub fn char_is_ws(c: char) -> (r: bool)
    ensures
        r == is_ws(c),
{
    ('\u{9}' <= c && c <= '\u{d}') || c == ' ' || c == '\u{85}' || c == '\u{a0}' || c
        == '\u{1680}' || ('\u{2000}' <= c && c <= '\u{200a}') || c == '\u{2028}' || c
        == '\u{2029}' || c == '\u{202f}' || c == '\u{205f}' || c == '\u{3000}'
}

pub open spec fn is_ascii_alnum(c: char) -> bool {
    ('0' <= c && c <= '9') || ('a' <= c && c <= 'z') || ('A' <= c && c <= 'Z')
}

pub fn char_is_ascii_alnum(c: char) -> (r: bool)
    ensures
        r == is_ascii_alnum(c),
{
    ('0' <= c && c <= '9') || ('a' <= c && c <= 'z') || ('A' <= c && c <= 'Z')
}

/// `char::to_ascii_lowercase`: ASCII upper-case letters map to lower case,
/// every other character is unchanged.
pub open spec fn lower(c: char) -> char {
    if 'A' <= c && c <= 'Z' {
        ((c as u32) + 32) as char
    } else {
        c
    }
}

pub fn char_lower(c: char) -> (r: char)
    ensures
        r == lower(c),
{
    if 'A' <= c && c <= 'Z' {
        let v: u32 = (c as u32) + 32;
        assert(0x61 <= v <= 0x7a);
        char_from_ascii(v)
    } else {
        c
    }
}

fn char_from_ascii(v: u32) -> (c: char)
    requires
        v < 128,
    ensures
        c == v as char,
{
    let b: u8 = v as u8;
    b as char
}

pub open spec fn lower_seq(s: Seq<char>) -> Seq<char> {
    s.map_values(|c: char| lower(c))
}

/// Number of leading characters of `s` that satisfy `p`.
pub open spec fn lead_len(s: Seq<char>, p: spec_fn(char) -> bool) -> nat
    decreases s.len(),
{
    if s.len() > 0 && p(s[0]) {
        1 + lead_len(s.drop_first(), p)
    } else {
        0
    }
}

/// Number of trailing characters of `s` that satisfy `p`.
pub open spec fn trail_len(s: Seq<char>, p: spec_fn(char) -> bool) -> nat
    decreases s.len(),
{
    if s.len() > 0 && p(s.last()) {
        1 + trail_len(s.drop_last(), p)
    } else {
        0
    }
}

/// Removes every leading and trailing character that satisfies `p`
/// (`str::trim_matches`).
pub open spec fn trim_by(s: Seq<char>, p: spec_fn(char) -> bool) -> Seq<char> {
    let a = lead_len(s, p);
    if a == s.len() {
        Seq::empty()
    } else {
        s.subrange(a as int, s.len() - trail_len(s, p))
    }
}

/// `str::trim`.
pub open spec fn trim(s: Seq<char>) -> Seq<char> {
    trim_by(s, |c: char| is_ws(c))
}

/// `str::trim_start`.
pub open spec fn trim_start(s: Seq<char>) -> Seq<char> {
    s.skip(lead_len(s, |c: char| is_ws(c)) as int)
}

pub proof fn lemma_lead_len(s: Seq<char>, p: spec_fn(char) -> bool)
    ensures
        lead_len(s, p) <= s.len(),
        forall|j: int| 0 <= j < lead_len(s, p) ==> p(#[trigger] s[j]),
        lead_len(s, p) < s.len() ==> !p(s[lead_len(s, p) as int]),
    decreases s.len(),
{
    if s.len() > 0 && p(s[0]) {
        lemma_lead_len(s.drop_first(), p);
        assert forall|j: int| 0 <= j < lead_len(s, p) implies p(#[trigger] s[j]) by {
            if j > 0 {
                assert(s[j] == s.drop_first()[j - 1]);
            }
        }
    }
}

pub proof fn lemma_lead_len_unique(s: Seq<char>, p: spec_fn(char) -> bool, k: int)
    requires
        0 <= k <= s.len(),
        forall|j: int| 0 <= j < k ==> p(#[trigger] s[j]),
        k < s.len() ==> !p(s[k]),
    ensures
        lead_len(s, p) == k,
    decreases s.len(),
{
    if k > 0 {
        assert(p(s[0]));
        assert forall|j: int| 0 <= j < k - 1 implies p(#[trigger] s.drop_first()[j]) by {
            assert(s.drop_first()[j] == s[j + 1]);
        }
        if k - 1 < s.len() - 1 {
            assert(s.drop_first()[k - 1] == s[k]);
        }
        lemma_lead_len_unique(s.drop_first(), p, k - 1);
    }
}

pub proof fn lemma_trail_len(s: Seq<char>, p: spec_fn(char) -> bool)
    ensures
        trail_len(s, p) <= s.len(),
        forall|j: int| s.len() - trail_len(s, p) <= j < s.len() ==> p(#[trigger] s[j]),
        trail_len(s, p) < s.len() ==> !p(s[s.len() - trail_len(s, p) - 1]),
    decreases s.len(),
{
    if s.len() > 0 && p(s.last()) {
        lemma_trail_len(s.drop_last(), p);
        assert forall|j: int| s.len() - trail_len(s, p) <= j < s.len() implies p(
            #[trigger] s[j],
        ) by {
            if j < s.len() - 1 {
                assert(s[j] == s.drop_last()[j]);
            }
        }
    }
}

pub proof fn lemma_trail_len_unique(s: Seq<char>, p: spec_fn(char) -> bool, k: int)
    requires
        0 <= k <= s.len(),
        forall|j: int| s.len() - k <= j < s.len() ==> p(#[trigger] s[j]),
        k < s.len() ==> !p(s[s.len() - k - 1]),
    ensures
        trail_len(s, p) == k,
    decreases s.len(),
{
    if k > 0 {
        assert(p(s.last()));
        let t = s.drop_last();
        assert forall|j: int| t.len() - (k - 1) <= j < t.len() implies p(#[trigger] t[j]) by {
            assert(t[j] == s[j]);
        }
        if k - 1 < t.len() {
            assert(t[t.len() - (k - 1) - 1] == s[s.len() - k - 1]);
        }
        lemma_trail_len_unique(t, p, k - 1);
    }
}

/// Appends one character (`String::push`).
#[verifier::external_body]
pub(crate) fn string_push(s: &mut String, c: char)
    ensures
        final(s)@ == old(s)@.push(c),
{
    s.push(c);
}

/// Builds a string from its characters.
pub fn string_from_chars(v: &Vec<char>) -> (s: String)
    ensures
        s@ == v@,
{
    let mut s = String::new();
    let mut i: usize = 0;
    while i < v.len()
        invariant
            i <= v.len(),
            s@ == v@.subrange(0, i as int),
        decreases v.len() - i,
    {
        string_push(&mut s, v[i]);
        assert(v@.subrange(0, i + 1) == v@.subrange(0, i as int).push(v@[i as int]));
        i = i + 1;
    }
    assert(v@.subrange(0, v@.len() as int) == v@);
    s
}

/// The characters of a string.
pub fn chars_of(s: &str) -> (v: Vec<char>)
    ensures
        v@ == s@,
{
    let mut v: Vec<char> = Vec::new();
    for c in it: s.chars()
        invariant
            v@ == it.seq().subrange(0, it.index() as int),
    {
        v.push(c);
    }
    v
}

/// Character sequence of a sub-slice `[from, to)`.
pub fn slice_string(v: &Vec<char>, from: usize, to: usize) -> (s: String)
    requires
        from <= to <= v.len(),
    ensures
        s@ == v@.subrange(from as int, to as int),
{
    let mut s = String::new();
    let mut i: usize = from;
    while i < to
        invariant
            from <= i <= to <= v.len(),
            s@ == v@.subrange(from as int, i as int),
        decreases to - i,
    {
        string_push(&mut s, v[i]);
        assert(v@.subrange(from as int, i + 1) == v@.subrange(from as int, i as int).push(
            v@[i as int],
        ));
        i = i + 1;
    }
    s
}

/// Index of the first leading character that is not white space.
fn lead_ws(v: &Vec<char>) -> (k: usize)
    ensures
        k == lead_len(v@, |c: char| is_ws(c)),
{
    let ghost p = |c: char| is_ws(c);
    let mut k: usize = 0;
    while k < v.len() && char_is_ws(v[k])
        invariant
            k <= v.len(),
            p == (|c: char| is_ws(c)),
            forall|j: int| 0 <= j < k ==> p(#[trigger] v@[j]),
        decreases v.len() - k,
    {
        assert(p(v@[k as int]));
        k = k + 1;
    }
    proof {
        lemma_lead_len_unique(v@, p, k as int);
    }
    k
}

/// Number of trailing white-space characters.
fn trail_ws(v: &Vec<char>) -> (k: usize)
    ensures
        k == trail_len(v@, |c: char| is_ws(c)),
{
    let ghost p = |c: char| is_ws(c);
    let mut k: usize = 0;
    while k < v.len() && char_is_ws(v[v.len() - 1 - k])
        invariant
            k <= v.len(),
            p == (|c: char| is_ws(c)),
            forall|j: int| v@.len() - k <= j < v@.len() ==> p(#[trigger] v@[j]),
        decreases v.len() - k,
    {
        assert(p(v@[v@.len() - 1 - k]));
        k = k + 1;
    }
    proof {
        lemma_trail_len_unique(v@, p, k as int);
    }
    k
}

/// `str::trim` on a character vector.
pub fn trim_chars(v: &Vec<char>) -> (r: Vec<char>)
    ensures
        r@ == trim(v@),
{
    let a = lead_ws(v);
    if a == v.len() {
        return Vec::new();
    }
    let b = trail_ws(v);
    proof {
        lemma_lead_len(v@, |c: char| is_ws(c));
        lemma_trail_len(v@, |c: char| is_ws(c));
        // the first non-space position is not counted by the trailing run
        if v@.len() - b <= a {
            assert(is_ws(v@[a as int]));
        }
    }
    let mut r: Vec<char> = Vec::new();
    let mut i: usize = a;
    while i < v.len() - b
        invariant
            a <= i <= v.len() - b,
            b <= v.len(),
            r@ == v@.subrange(a as int, i as int),
        decreases v.len() - b - i,
    {
        r.push(v[i]);
        assert(v@.subrange(a as int, i + 1) == v@.subrange(a as int, i as int).push(
            v@[i as int],
        ));
        i = i + 1;
    }
    r
}

/// `str::trim` on a string.
pub fn trim_str(s: &str) -> (r: String)
    ensures
        r@ == trim(s@),
{
    let v = chars_of(s);
    let t = trim_chars(&v);
    string_from_chars(&t)
}

/// Character-sequence equality of two strings.
pub fn str_eq(a: &str, b: &str) -> (r: bool)
    ensures
        r == (a@ == b@),
{
    let x = a.to_owned();
    let y = b.to_owned();
    x == y
}

/// The decimal digit character for `d < 10`.
pub open spec fn digit(d: nat) -> char {
    ((('0' as u32) + d) as u32) as char
}

/// Decimal rendering of a natural number (`u64::to_string`).
pub open spec fn decimal(n: nat) -> Seq<char>
    decreases n,
{
    if n < 10 {
        seq![digit(n)]
    } else {
        decimal(n / 10).push(digit(n % 10))
    }
}

fn digit_char(d: u64) -> (c: char)
    requires
        d < 10,
    ensures
        c == digit(d as nat),
{
    let b: u8 = (48 + d) as u8;
    b as char
}

/// Appends the decimal rendering of `n` to `out`.
pub fn push_decimal(out: &mut Vec<char>, n: u64)
    ensures
        final(out)@ == old(out)@ + decimal(n as nat),
    decreases n,
{
    if n < 10 {
        out.push(digit_char(n));
        assert(decimal(n as nat) == seq![digit(n as nat)]);
    } else {
        push_decimal(out, n / 10);
        out.push(digit_char(n % 10));
    }
}

/// Decimal rendering of `n` as a string.
pub fn decimal_string(n: u64) -> (s: String)
    ensures
        s@ == decimal(n as nat),
{
    let mut v: Vec<char> = Vec::new();
    push_decimal(&mut v, n);
    assert(v@ == decimal(n as nat));
    string_from_chars(&v)
}

/// Decimal rendering of a signed integer (`i64::to_string`).
pub open spec fn signed_decimal(n: int) -> Seq<char> {
    if n < 0 {
        seq!['-'] + decimal((-n) as nat)
    } else {
        decimal(n as nat)
    }
}

/// Decimal rendering of `n` as a string.
pub fn signed_decimal_string(n: i64) -> (s: String)
    ensures
        s@ == signed_decimal(n as int),
{
    let mut v: Vec<char> = Vec::new();
    if n < 0 {
        v.push('-');
        let magnitude: u64 = ((-(n + 1)) as u64) + 1;
        push_decimal(&mut v, magnitude);
        assert(v@ =~= seq!['-'] + decimal((-n) as nat));
    } else {
        push_decimal(&mut v, n as u64);
        assert(v@ =~= decimal(n as nat));
    }
    string_from_chars(&v)
}

pub open spec fn is_id_char(c: char) -> bool {
    is_ascii_alnum(c) || c == '-' || c == '_'
}

pub open spec fn is_dash(c: char) -> bool {
    c == '-'
}

/// The identifier rule before the outer dashes are removed: kept characters
/// are lower-cased, every run of other characters becomes one dash (a dash is
/// not added right after a dash).
pub open spec fn collapse_id(s: Seq<char>) -> Seq<char>
    decreases s.len(),
{
    if s.len() == 0 {
        Seq::empty()
    } else {
        let out = collapse_id(s.drop_last());
        let c = s.last();
        if is_id_char(c) {
            out.push(lower(c))
        } else if out.len() > 0 && out.last() == '-' {
            out
        } else {
            out.push('-')
        }
    }
}

/// Identifier normalisation of the model registry: trim, lower-case ASCII
/// letters, collapse other characters to single dashes, strip outer dashes.
pub open spec fn normalize_id_spec(s: Seq<char>) -> Seq<char> {
    trim_by(collapse_id(trim(s)), |c: char| is_dash(c))
}

/// Every character kept (lower-cased) or replaced by one dash.
pub open spec fn dash_map(s: Seq<char>) -> Seq<char> {
    s.map_values(|c: char| if is_id_char(c) { lower(c) } else { '-' })
}

/// Identifier sanitising of migrated profiles: every character that is not an
/// ASCII letter, digit, `-` or `_` becomes a dash, letters are lower-cased,
/// outer dashes are stripped.
pub open spec fn sanitize_id_spec(s: Seq<char>) -> Seq<char> {
    trim_by(dash_map(s), |c: char| is_dash(c))
}

/// Removes leading and trailing dashes.
pub fn trim_dashes(v: &Vec<char>) -> (r: Vec<char>)
    ensures
        r@ == trim_by(v@, |c: char| is_dash(c)),
{
    let ghost p = |c: char| is_dash(c);
    let mut a: usize = 0;
    while a < v.len() && v[a] == '-'
        invariant
            a <= v.len(),
            p == (|c: char| is_dash(c)),
            forall|j: int| 0 <= j < a ==> p(#[trigger] v@[j]),
        decreases v.len() - a,
    {
        assert(p(v@[a as int]));
        a = a + 1;
    }
    proof {
        lemma_lead_len_unique(v@, p, a as int);
    }
    if a == v.len() {
        return Vec::new();
    }
    let mut b: usize = 0;
    while b < v.len() && v[v.len() - 1 - b] == '-'
        invariant
            b <= v.len(),
            p == (|c: char| is_dash(c)),
            forall|j: int| v@.len() - b <= j < v@.len() ==> p(#[trigger] v@[j]),
        decreases v.len() - b,
    {
        assert(p(v@[v@.len() - 1 - b]));
        b = b + 1;
    }
    proof {
        lemma_trail_len_unique(v@, p, b as int);
        lemma_trail_len(v@, p);
        if v@.len() - b <= a {
            assert(p(v@[a as int]));
        }
    }
    let mut r: Vec<char> = Vec::new();
    let mut i: usize = a;
    while i < v.len() - b
        invariant
            a <= i <= v.len() - b,
            b <= v.len(),
            r@ == v@.subrange(a as int, i as int),
        decreases v.len() - b - i,
    {
        r.push(v[i]);
        assert(v@.subrange(a as int, i + 1) == v@.subrange(a as int, i as int).push(
            v@[i as int],
        ));
        i = i + 1;
    }
    r
}

fn char_is_id(c: char) -> (r: bool)
    ensures
        r == is_id_char(c),
{
    char_is_ascii_alnum(c) || c == '-' || c == '_'
}

/// `str::to_ascii_lowercase`.
pub fn lower_str(s: &str) -> (r: String)
    ensures
        r@ == lower_seq(s@),
{
    let chars = chars_of(s);
    let mut out: Vec<char> = Vec::new();
    let mut i: usize = 0;
    while i < chars.len()
        invariant
            i <= chars.len(),
            chars@ == s@,
            out@ == chars@.take(i as int).map_values(|c: char| lower(c)),
        decreases chars.len() - i,
    {
        out.push(char_lower(chars[i]));
        assert(chars@.take(i + 1).map_values(|c: char| lower(c)) =~= chars@.take(i as int).map_values(
            |c: char| lower(c),
        ).push(lower(chars@[i as int])));
        i = i + 1;
    }
    assert(chars@.take(chars@.len() as int) =~= chars@);
    string_from_chars(&out)
}

/// Registry identifier normalisation (`normalize_id`).
pub fn normalize_id(value: &str) -> (r: String)
    ensures
        r@ == normalize_id_spec(value@),
{
    let chars = chars_of(value);
    let t = trim_chars(&chars);
    let mut out: Vec<char> = Vec::new();
    let mut i: usize = 0;
    while i < t.len()
        invariant
            i <= t.len(),
            out@ == collapse_id(t@.subrange(0, i as int)),
        decreases t.len() - i,
    {
        let c = t[i];
        assert(t@.subrange(0, i + 1).drop_last() == t@.subrange(0, i as int));
        if char_is_id(c) {
            out.push(char_lower(c));
        } else if out.len() > 0 && out[out.len() - 1] == '-' {
        } else {
            out.push('-');
        }
        i = i + 1;
    }
    assert(t@.subrange(0, t@.len() as int) == t@);
    let trimmed = trim_dashes(&out);
    string_from_chars(&trimmed)
}

/// Profile identifier sanitising (`sanitize_id`).
pub fn sanitize_id(value: &str) -> (r: String)
    ensures
        r@ == sanitize_id_spec(value@),
{
    let chars = chars_of(value);
    let mut out: Vec<char> = Vec::new();
    let mut i: usize = 0;
    while i < chars.len()
        invariant
            i <= chars.len(),
            out@ == dash_map(chars@.subrange(0, i as int)),
        decreases chars.len() - i,
    {
        let c = chars[i];
        if char_is_id(c) {
            out.push(char_lower(c));
        } else {
            out.push('-');
        }
        assert(dash_map(chars@.subrange(0, i + 1)) =~= dash_map(chars@.subrange(0, i as int)).push(
            if is_id_char(c) { lower(c) } else { '-' },
        ));
        i = i + 1;
    }
    assert(chars@.subrange(0, chars@.len() as int) == chars@);
    let trimmed = trim_dashes(&out);
    string_from_chars(&trimmed)
}

// ---------------------------------------------------------------------------
// The order of strings
// ---------------------------------------------------------------------------
/// `a` comes strictly before `b` in the order of Rust strings: the
/// lexicographic order of their characters by code point (which is the
/// order of their UTF-8 bytes).
pub open spec fn text_lt(a: Seq<char>, b: Seq<char>) -> bool
    decreases a.len(),
{
    if a.len() == 0 {
        b.len() > 0
    } else if b.len() == 0 {
        false
    } else if a[0] != b[0] {
        a[0] < b[0]
    } else {
        text_lt(a.drop_first(), b.drop_first())
    }
}

pub proof fn lemma_text_lt_transitive(a: Seq<char>, b: Seq<char>, c: Seq<char>)
    requires
        text_lt(a, b),
        text_lt(b, c),
    ensures
        text_lt(a, c),
    decreases a.len(),
{
    if a.len() > 0 && b.len() > 0 && c.len() > 0 && a[0] == b[0] && b[0] == c[0] {
        lemma_text_lt_transitive(a.drop_first(), b.drop_first(), c.drop_first());
    }
}

pub proof fn lemma_text_lt_irreflexive_total(a: Seq<char>, b: Seq<char>)
    ensures
        !(text_lt(a, b) && text_lt(b, a)),
        !text_lt(a, b) && !text_lt(b, a) ==> a == b,
    decreases a.len(),
{
    if a.len() > 0 && b.len() > 0 {
        if a[0] == b[0] {
            lemma_text_lt_irreflexive_total(a.drop_first(), b.drop_first());
            if !text_lt(a, b) && !text_lt(b, a) {
                assert(a =~= seq![a[0]] + a.drop_first());
                assert(b =~= seq![b[0]] + b.drop_first());
            }
        }
    }
}

/// Whether `a` comes strictly before `b` in the order of Rust strings.
pub fn text_less(a: &str, b: &str) -> (r: bool)
    ensures
        r == text_lt(a@, b@),
{
    let x = chars_of(a);
    let y = chars_of(b);
    let mut i: usize = 0;
    proof {
        assert(x@.skip(0) =~= x@);
        assert(y@.skip(0) =~= y@);
    }
    while i < x.len() && i < y.len() && x[i] == y[i]
        invariant
            i <= x@.len(),
            i <= y@.len(),
            x@ == a@,
            y@ == b@,
            x@.take(i as int) == y@.take(i as int),
            text_lt(a@, b@) == text_lt(x@.skip(i as int), y@.skip(i as int)),
        decreases x@.len() - i,
    {
        proof {
            let xs = x@.skip(i as int);
            let ys = y@.skip(i as int);
            assert(xs.drop_first() =~= x@.skip(i + 1));
            assert(ys.drop_first() =~= y@.skip(i + 1));
            assert(x@.take(i + 1) =~= x@.take(i as int).push(x@[i as int]));
            assert(y@.take(i + 1) =~= y@.take(i as int).push(y@[i as int]));
        }
        i = i + 1;
    }
    proof {
        let xs = x@.skip(i as int);
        let ys = y@.skip(i as int);
        if i < x@.len() && i < y@.len() {
            assert(xs[0] == x@[i as int] && ys[0] == y@[i as int]);
        }
    }
    if i < x.len() && i < y.len() {
        x[i] < y[i]
    } else {
        i >= x.len() && i < y.len()
    }
}


// ---------------------------------------------------------------------------
// Sorted lists of distinct strings
// ---------------------------------------------------------------------------
/// Every string comes strictly before the ones after it, so none occurs
/// twice.
pub open spec fn strictly_sorted(s: Seq<Seq<char>>) -> bool {
    forall|i: int, j: int| 0 <= i < j < s.len() ==> text_lt(#[trigger] s[i], #[trigger] s[j])
}

/// Two strictly sorted lists with the same strings are the same list.
pub proof fn lemma_strictly_sorted_unique(a: Seq<Seq<char>>, b: Seq<Seq<char>>)
    requires
        strictly_sorted(a),
        strictly_sorted(b),
        a.to_set() == b.to_set(),
    ensures
        a == b,
    decreases a.len() + b.len(),
{
    if a.len() == 0 {
        if b.len() > 0 {
            assert(b.to_set().contains(b[0]));
            assert(!a.to_set().contains(b[0]));
        }
        assert(a =~= b);
    } else if b.len() == 0 {
        assert(a.to_set().contains(a[0]));
        assert(!b.to_set().contains(a[0]));
    } else {
        // The least strings of both lists are equal.
        assert(a.to_set().contains(a[0]));
        assert(b.to_set().contains(b[0]));
        let ka = choose|k: int| 0 <= k < b.len() && b[k] == a[0];
        let kb = choose|k: int| 0 <= k < a.len() && a[k] == b[0];
        if ka > 0 {
            assert(text_lt(b[0], b[ka]));
            if kb > 0 {
                assert(text_lt(a[0], a[kb]));
                lemma_text_lt_irreflexive_total(a[0], b[0]);
            } else {
                lemma_text_lt_irreflexive_total(a[0], a[0]);
            }
        }
        assert(a[0] == b[0]) by {
            if ka > 0 {
                lemma_text_lt_irreflexive_total(b[0], a[0]);
                if kb > 0 {
                    assert(text_lt(a[0], a[kb]));
                }
            }
        }
        let ta = a.drop_first();
        let tb = b.drop_first();
        assert forall|x: Seq<char>| ta.to_set().contains(x) implies tb.to_set().contains(x) by {
            let k = choose|k: int| 0 <= k < ta.len() && ta[k] == x;
            assert(a[k + 1] == x);
            assert(text_lt(a[0], x));
            assert(a.to_set().contains(x));
            let m = choose|m: int| 0 <= m < b.len() && b[m] == x;
            if m == 0 {
                lemma_text_lt_irreflexive_total(x, x);
            }
            assert(tb[m - 1] == x);
        }
        assert forall|x: Seq<char>| tb.to_set().contains(x) implies ta.to_set().contains(x) by {
            let k = choose|k: int| 0 <= k < tb.len() && tb[k] == x;
            assert(b[k + 1] == x);
            assert(text_lt(b[0], x));
            assert(b.to_set().contains(x));
            let m = choose|m: int| 0 <= m < a.len() && a[m] == x;
            if m == 0 {
                lemma_text_lt_irreflexive_total(x, x);
            }
            assert(ta[m - 1] == x);
        }
        assert(ta.to_set() =~= tb.to_set());
        lemma_strictly_sorted_unique(ta, tb);
        assert(a =~= seq![a[0]] + ta);
        assert(b =~= seq![b[0]] + tb);
    }
}

/// Adds `x` to a strictly sorted list of distinct strings, in its place;
/// nothing changes where it is there already.
pub fn insert_sorted(v: &mut Vec<String>, x: String)
    requires
        strictly_sorted(old(v)@.map_values(|s: String| s@)),
    ensures
        strictly_sorted(final(v)@.map_values(|s: String| s@)),
        final(v)@.map_values(|s: String| s@).to_set() == old(v)@.map_values(|s: String| s@).to_set().insert(
            x@,
        ),
{
    let ghost s = v@.map_values(|s: String| s@);
    let mut k: usize = 0;
    while k < v.len() && text_less(v[k].as_str(), x.as_str())
        invariant
            k <= v@.len(),
            s == v@.map_values(|s: String| s@),
            v@.map_values(|s: String| s@) == old(v)@.map_values(|s: String| s@),
            forall|j: int| 0 <= j < k ==> text_lt(#[trigger] s[j], x@),
        decreases v@.len() - k,
    {
        k = k + 1;
    }
    if k < v.len() && str_eq(v[k].as_str(), x.as_str()) {
        assert(s.to_set().contains(x@)) by {
            assert(s[k as int] == x@);
        }
        assert(s.to_set().insert(x@) =~= s.to_set());
        return;
    }
    proof {
        if k < s.len() {
            lemma_text_lt_irreflexive_total(s[k as int], x@);
        }
    }
    let ghost xv = x@;
    v.insert(k, x);
    let ghost t = v@.map_values(|s: String| s@);
    assert(t =~= s.insert(k as int, xv));
    assert forall|i: int, j: int| 0 <= i < j < t.len() implies text_lt(#[trigger] t[i], #[trigger] t[j]) by {
        if j < k {
            assert(t[i] == s[i] && t[j] == s[j]);
        } else if j == k {
            assert(t[i] == s[i]);
        } else if i == k {
            assert(t[j] == s[j - 1]);
            if j - 1 > k {
                assert(text_lt(s[k as int], s[j - 1]));
                lemma_text_lt_transitive(xv, s[k as int], s[j - 1]);
            }
        } else if i < k {
            assert(t[i] == s[i] && t[j] == s[j - 1]);
        } else {
            assert(t[i] == s[i - 1] && t[j] == s[j - 1]);
        }
    }
    assert forall|y: Seq<char>| #[trigger] t.to_set().contains(y) <==> s.to_set().insert(xv).contains(y) by {
        if t.to_set().contains(y) {
            let m = choose|m: int| 0 <= m < t.len() && t[m] == y;
            if m < k {
                assert(s[m] == y);
            } else if m > k {
                assert(s[m - 1] == y);
            }
        }
        if s.to_set().contains(y) {
            let m = choose|m: int| 0 <= m < s.len() && s[m] == y;
            if m < k {
                assert(t[m] == y);
            } else {
                assert(t[m + 1] == y);
            }
        }
        if y == xv {
            assert(t[k as int] == y);
        }
    }
    assert(t.to_set() =~= s.to_set().insert(xv));
}

/// The strings of `v`, sorted, each once (`sort` then `dedup`).
pub fn sort_dedup(v: Vec<String>) -> (r: Vec<String>)
    ensures
        strictly_sorted(r@.map_values(|s: String| s@)),
        r@.map_values(|s: String| s@).to_set() == v@.map_values(|s: String| s@).to_set(),
{
    let ghost src = v@.map_values(|s: String| s@);
    let mut r: Vec<String> = Vec::new();
    assert(r@.map_values(|s: String| s@).to_set() =~= src.take(0).to_set());
    let mut i: usize = 0;
    while i < v.len()
        invariant
            i <= src.len(),
            src == v@.map_values(|s: String| s@),
            strictly_sorted(r@.map_values(|s: String| s@)),
            r@.map_values(|s: String| s@).to_set() == src.take(i as int).to_set(),
        decreases src.len() - i,
    {
        let x = v[i].clone();
        assert(x@ == src[i as int]);
        assert(src.take(i + 1) =~= src.take(i as int).push(src[i as int]));
        proof {
            src.take(i as int).lemma_push_to_set_commute(src[i as int]);
        }
        insert_sorted(&mut r, x);
        i = i + 1;
    }
    assert(src.take(src.len() as int) =~= src);
    r
}

/// The characters of `v` without its leading white space.
pub fn trim_start_chars(v: &Vec<char>) -> (r: Vec<char>)
    ensures
        r@ == trim_start(v@),
{
    let ghost p = |c: char| is_ws(c);
    let mut k: usize = 0;
    while k < v.len() && char_is_ws(v[k])
        invariant
            k <= v@.len(),
            p == (|c: char| is_ws(c)),
            forall|j: int| 0 <= j < k ==> p(#[trigger] v@[j]),
        decreases v@.len() - k,
    {
        k = k + 1;
    }
    proof {
        lemma_lead_len_unique(v@, p, k as int);
    }
    let mut r: Vec<char> = Vec::new();
    let mut i: usize = k;
    while i < v.len()
        invariant
            k <= i <= v@.len(),
            r@ == v@.subrange(k as int, i as int),
        decreases v@.len() - i,
    {
        r.push(v[i]);
        assert(r@ =~= v@.subrange(k as int, i + 1));
        i = i + 1;
    }
    assert(r@ =~= v@.skip(k as int));
    r
}
} // verus!
