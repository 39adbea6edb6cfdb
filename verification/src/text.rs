use vstd::prelude::*;

verus! {

// ---------------------------------------------------------------------------
// Characters
// ---------------------------------------------------------------------------

/// Whether `c` is a letter or digit in the Unicode sense (`char::is_alphanumeric`).
pub uninterp spec fn unicode_alphanumeric(c: char) -> bool;

/// Whether `c` carries the Unicode `White_Space` property (`char::is_whitespace`).
pub uninterp spec fn unicode_whitespace(c: char) -> bool;

/// An ASCII letter or digit.
pub open spec fn ascii_alphanumeric(c: char) -> bool {
    ('a' <= c && c <= 'z') || ('A' <= c && c <= 'Z') || ('0' <= c && c <= '9')
}

/// ASCII white space: tab, line feed, vertical tab, form feed, carriage return, space.
pub open spec fn ascii_whitespace(c: char) -> bool {
    c == ' ' || ('\t' <= c && c <= '\r')
}

/// `char::is_alphanumeric`: true when `c` is alphabetic or numeric in the Unicode
/// sense. For ASCII characters that is exactly the letters and the digits; for
/// the others the result is the Unicode tables', named and not spelt out here.
#[verifier::external_body]
pub(crate) fn is_alphanumeric(c: char) -> (r: bool)
    ensures
        r == unicode_alphanumeric(c),
        (c as u32) < 128 ==> (r == ascii_alphanumeric(c)),
{
    c.is_alphanumeric()
}

/// `char::is_whitespace`: true when `c` has the Unicode `White_Space` property.
/// For ASCII characters those are tab through carriage return and the space;
/// for the others the result is the Unicode tables', named and not spelt out.
#[verifier::external_body]
pub(crate) fn is_whitespace(c: char) -> (r: bool)
    ensures
        r == unicode_whitespace(c),
        (c as u32) < 128 ==> (r == ascii_whitespace(c)),
{
    c.is_whitespace()
}

/// `String::push`: appends one character.
#[verifier::external_body]
pub(crate) fn push_char(s: &mut String, c: char)
    ensures
        final(s)@ == old(s)@.push(c),
{
    s.push(c);
}

/// A fresh string holding the characters of `s`.
pub fn owned(s: &str) -> (r: String)
    ensures
        r@ == s@,
{
    let mut r = String::new();
    r.append(s);
    r
}

// ---------------------------------------------------------------------------
// Decimal numbers
// ---------------------------------------------------------------------------

/// The character of decimal digit `d` (for `d < 10`).
pub open spec fn digit_char(d: nat) -> char {
    (48 + d) as char
}

/// The decimal representation of `n`, most significant digit first, without
/// leading zeros ("0" for zero).
pub open spec fn decimal(n: nat) -> Seq<char>
    decreases n,
{
    if n < 10 {
        seq![digit_char(n)]
    } else {
        decimal(n / 10).push(digit_char(n % 10))
    }
}

/// A run of `k` copies of `c`.
pub open spec fn repeat(c: char, k: nat) -> Seq<char> {
    Seq::new(k, |i: int| c)
}

/// The decimal representation of `n`, padded on the left with zeros to at
/// least `width` characters (the `{:0width$}` format).
pub open spec fn zero_padded(n: nat, width: nat) -> Seq<char> {
    let d = decimal(n);
    if d.len() < width {
        repeat('0', (width - d.len()) as nat) + d
    } else {
        d
    }
}

fn digit(d: u64) -> (c: char)
    requires
        d < 10,
    ensures
        c == digit_char(d as nat),
{
    match d {
        0 => '0',
        1 => '1',
        2 => '2',
        3 => '3',
        4 => '4',
        5 => '5',
        6 => '6',
        7 => '7',
        8 => '8',
        _ => '9',
    }
}

/// Appends the decimal representation of `n` to `s`.
pub fn push_decimal(s: &mut String, n: u64)
    ensures
        final(s)@ == old(s)@ + decimal(n as nat),
    decreases n,
{
    if n < 10 {
        push_char(s, digit(n));
    } else {
        push_decimal(s, n / 10);
        push_char(s, digit(n % 10));
    }
}

/// The decimal representation of `n` (what `n.to_string()` gives).
pub fn decimal_string(n: u64) -> (r: String)
    ensures
        r@ == decimal(n as nat),
{
    let mut s = String::new();
    push_decimal(&mut s, n);
    s
}

/// Appends `n` in decimal, padded with zeros to at least `width` characters.
pub fn push_zero_padded(s: &mut String, n: u64, width: usize)
    ensures
        final(s)@ == old(s)@ + zero_padded(n as nat, width as nat),
{
    let d = decimal_string(n);
    let len = d.as_str().unicode_len();
    if len < width {
        let mut k: usize = 0;
        let ghost start = s@;
        while k < width - len
            invariant
                k <= width - len,
                s@ == start + repeat('0', k as nat),
            decreases width - len - k,
        {
            push_char(s, '0');
            k = k + 1;
            assert(s@ =~= start + repeat('0', k as nat));
        }
        s.append(d.as_str());
        assert(s@ =~= start + zero_padded(n as nat, width as nat));
    } else {
        s.append(d.as_str());
    }
}


// ---------------------------------------------------------------------------
// Character sequences
// ---------------------------------------------------------------------------

/// The characters of `s`, one per element.
pub fn chars_of(s: &str) -> (r: Vec<char>)
    ensures
        r@ == s@,
{
    let n = s.unicode_len();
    let mut r: Vec<char> = Vec::new();
    let mut i: usize = 0;
    while i < n
        invariant
            n == s@.len(),
            i <= n,
            r@ == s@.take(i as int),
        decreases n - i,
    {
        r.push(s.get_char(i));
        i = i + 1;
        assert(r@ =~= s@.take(i as int));
    }
    assert(r@ =~= s@);
    r
}

/// A string holding the characters `v[from..to]`.
pub fn string_of(v: &Vec<char>, from: usize, to: usize) -> (r: String)
    requires
        from <= to <= v.len(),
    ensures
        r@ == v@.subrange(from as int, to as int),
{
    let mut r = String::new();
    let mut i: usize = from;
    while i < to
        invariant
            from <= i <= to <= v.len(),
            r@ == v@.subrange(from as int, i as int),
        decreases to - i,
    {
        push_char(&mut r, v[i]);
        i = i + 1;
        assert(r@ =~= v@.subrange(from as int, i as int));
    }
    r
}

// ---------------------------------------------------------------------------
// Trimming and words
// ---------------------------------------------------------------------------

/// The number of leading characters of `s` that satisfy `p`.
pub open spec fn leading(s: Seq<char>, p: spec_fn(char) -> bool) -> nat
    decreases s.len(),
{
    if s.len() > 0 && p(s[0]) {
        1 + leading(s.drop_first(), p)
    } else {
        0
    }
}

/// The number of trailing characters of `s` that satisfy `p`.
pub open spec fn trailing(s: Seq<char>, p: spec_fn(char) -> bool) -> nat
    decreases s.len(),
{
    if s.len() > 0 && p(s.last()) {
        1 + trailing(s.drop_last(), p)
    } else {
        0
    }
}

/// `s` without its leading and trailing characters that satisfy `p`.
pub open spec fn trimmed(s: Seq<char>, p: spec_fn(char) -> bool) -> Seq<char> {
    let i = leading(s, p);
    if i == s.len() {
        Seq::empty()
    } else {
        s.subrange(i as int, s.len() - trailing(s, p))
    }
}

pub open spec fn whitespace() -> spec_fn(char) -> bool {
    |c: char| unicode_whitespace(c)
}

pub open spec fn not_whitespace() -> spec_fn(char) -> bool {
    |c: char| !unicode_whitespace(c)
}

/// What `str::trim` leaves of `s`.
pub open spec fn trim_ws(s: Seq<char>) -> Seq<char> {
    trimmed(s, whitespace())
}

/// The first whitespace-separated word of `s` (empty when `s` holds none).
pub open spec fn first_word(s: Seq<char>) -> Seq<char> {
    let t = s.skip(leading(s, whitespace()) as int);
    t.take(leading(t, not_whitespace()) as int)
}

/// What follows the first whitespace-separated word of `s`.
pub open spec fn after_first_word(s: Seq<char>) -> Seq<char> {
    let t = s.skip(leading(s, whitespace()) as int);
    t.skip(leading(t, not_whitespace()) as int)
}

pub proof fn lemma_leading_le(s: Seq<char>, p: spec_fn(char) -> bool)
    ensures
        leading(s, p) <= s.len(),
    decreases s.len(),
{
    if s.len() > 0 && p(s[0]) {
        lemma_leading_le(s.drop_first(), p);
    }
}

/// The character after the leading run, if any, does not satisfy `p`.
pub proof fn lemma_leading_stops(s: Seq<char>, p: spec_fn(char) -> bool)
    ensures
        leading(s, p) <= s.len(),
        leading(s, p) < s.len() ==> !p(s[leading(s, p) as int]),
        forall|k: int| 0 <= k < leading(s, p) ==> p(#[trigger] s[k]),
    decreases s.len(),
{
    if s.len() > 0 && p(s[0]) {
        let t = s.drop_first();
        lemma_leading_stops(t, p);
        assert forall|k: int| 0 <= k < leading(s, p) implies p(#[trigger] s[k]) by {
            if k > 0 {
                assert(s[k] == t[k - 1]);
            }
        }
        if leading(s, p) < s.len() {
            assert(s[leading(s, p) as int] == t[leading(t, p) as int]);
        }
    }
}

/// A character that does not satisfy `p` bounds the trailing run.
pub proof fn lemma_trailing_bound(s: Seq<char>, p: spec_fn(char) -> bool, k: int)
    requires
        0 <= k < s.len(),
        !p(s[k]),
    ensures
        trailing(s, p) <= s.len() - 1 - k,
    decreases s.len(),
{
    if s.len() > 0 && p(s.last()) {
        let t = s.drop_last();
        assert(k < s.len() - 1);
        assert(t[k] == s[k]);
        lemma_trailing_bound(t, p, k);
    }
}

/// `leading` is the length of the longest prefix whose characters satisfy `p`.
pub proof fn lemma_leading_exact(s: Seq<char>, p: spec_fn(char) -> bool, i: int)
    requires
        0 <= i <= s.len(),
        forall|k: int| 0 <= k < i ==> p(#[trigger] s[k]),
        i == s.len() || !p(s[i]),
    ensures
        leading(s, p) == i,
    decreases i,
{
    if i > 0 {
        let t = s.drop_first();
        assert forall|k: int| 0 <= k < i - 1 implies p(#[trigger] t[k]) by {
            assert(t[k] == s[k + 1]);
        }
        lemma_leading_exact(t, p, i - 1);
    }
}

/// `trailing` counts the longest suffix whose characters satisfy `p`.
pub proof fn lemma_trailing_exact(s: Seq<char>, p: spec_fn(char) -> bool, j: int)
    requires
        0 <= j <= s.len(),
        forall|k: int| j <= k < s.len() ==> p(#[trigger] s[k]),
        j == 0 || !p(s[j - 1]),
    ensures
        trailing(s, p) == s.len() - j,
    decreases s.len() - j,
{
    if j < s.len() {
        let t = s.drop_last();
        assert forall|k: int| j <= k < t.len() implies p(#[trigger] t[k]) by {
            assert(t[k] == s[k]);
        }
        lemma_trailing_exact(t, p, j);
    }
}

/// The index of the first character at or after `from` that is (when `want_space`)
/// or is not (otherwise) white space, or `v.len()` when there is none.
fn scan(v: &Vec<char>, from: usize, want_space: bool) -> (r: usize)
    requires
        from <= v.len(),
    ensures
        from <= r <= v.len(),
        forall|k: int| from <= k < r ==> unicode_whitespace(#[trigger] v@[k]) != want_space,
        r < v.len() ==> unicode_whitespace(v@[r as int]) == want_space,
{
    let mut i: usize = from;
    while i < v.len()
        invariant
            from <= i <= v.len(),
            forall|k: int| from <= k < i ==> unicode_whitespace(#[trigger] v@[k]) != want_space,
        decreases v.len() - i,
    {
        if is_whitespace(v[i]) == want_space {
            return i;
        }
        i = i + 1;
    }
    i
}

/// `str::trim`: `s` without leading and trailing white space.
pub fn trim(s: &str) -> (r: String)
    ensures
        r@ == trim_ws(s@),
{
    let v = chars_of(s);
    let n = v.len();
    let i = scan(&v, 0, false);
    proof {
        lemma_leading_exact(s@, whitespace(), i as int);
    }
    if i == n {
        return String::new();
    }
    let mut j: usize = n;
    while j > i && is_whitespace(v[j - 1])
        invariant
            i < n == v.len(),
            i <= j <= n,
            forall|k: int| j <= k < n ==> unicode_whitespace(#[trigger] v@[k]),
        decreases j,
    {
        j = j - 1;
    }
    proof {
        assert(!unicode_whitespace(v@[i as int]));
        lemma_trailing_exact(s@, whitespace(), j as int);
    }
    string_of(&v, i, j)
}

/// The first whitespace-separated word of `v[from..]` as the range
/// `(start, end)`, together with the proof obligations that tie it to
/// `first_word` and `after_first_word`.
fn next_word(v: &Vec<char>, from: usize) -> (r: (usize, usize))
    requires
        from <= v.len(),
    ensures
        from <= r.0 <= r.1 <= v.len(),
        v@.subrange(r.0 as int, r.1 as int) == first_word(v@.skip(from as int)),
        v@.skip(r.1 as int) == after_first_word(v@.skip(from as int)),
{
    let start = scan(v, from, false);
    let end = scan(v, start, true);
    proof {
        let s = v@.skip(from as int);
        assert forall|k: int| 0 <= k < start - from implies (whitespace())(#[trigger] s[k]) by {
            assert(s[k] == v@[k + from]);
        }
        if start < v.len() {
            assert(s[start - from] == v@[start as int]);
        }
        lemma_leading_exact(s, whitespace(), start - from);
        let t = s.skip(start - from);
        assert(t =~= v@.skip(start as int));
        assert forall|k: int| 0 <= k < end - start implies (not_whitespace())(#[trigger] t[k]) by {
            assert(t[k] == v@[k + start]);
        }
        if end < v.len() {
            assert(t[end - start] == v@[end as int]);
        }
        lemma_leading_exact(t, not_whitespace(), end - start);
        assert(v@.subrange(start as int, end as int) =~= t.take(end - start));
        assert(v@.skip(end as int) =~= t.skip(end - start));
    }
    (start, end)
}

/// The first two whitespace-separated words of `s` (`split_whitespace`), each
/// `None` when absent.
pub fn first_two_words(s: &str) -> (r: (Option<String>, Option<String>))
    ensures
        (r.0 is Some) == (first_word(s@).len() > 0),
        r.0 is Some ==> r.0.unwrap()@ == first_word(s@),
        (r.1 is Some) == (first_word(s@).len() > 0 && first_word(after_first_word(s@)).len() > 0),
        r.1 is Some ==> r.1.unwrap()@ == first_word(after_first_word(s@)),
{
    let v = chars_of(s);
    assert(v@.skip(0) =~= v@);
    let (a, b) = next_word(&v, 0);
    if a == b {
        return (None, None);
    }
    let w1 = string_of(&v, a, b);
    let (c, d) = next_word(&v, b);
    if c == d {
        return (Some(w1), None);
    }
    let w2 = string_of(&v, c, d);
    (Some(w1), Some(w2))
}


// ---------------------------------------------------------------------------
// Ordering and sorting
// ---------------------------------------------------------------------------

/// Lexicographic order of character sequences by code point, the order in which
/// Rust compares `str` and `String` values.
pub open spec fn chars_lt(a: Seq<char>, b: Seq<char>) -> bool
    decreases a.len(),
{
    if b.len() == 0 {
        false
    } else if a.len() == 0 {
        true
    } else if a[0] != b[0] {
        (a[0] as u32) < (b[0] as u32)
    } else {
        chars_lt(a.drop_first(), b.drop_first())
    }
}

pub open spec fn chars_le(a: Seq<char>, b: Seq<char>) -> bool {
    chars_lt(a, b) || a == b
}

/// The views of a sequence of strings.
pub open spec fn views(v: Seq<String>) -> Seq<Seq<char>> {
    v.map_values(|s: String| s@)
}

/// Every element is at most every later one.
pub open spec fn sorted(s: Seq<Seq<char>>) -> bool {
    forall|i: int, j: int| 0 <= i < j < s.len() ==> chars_le(s[i], s[j])
}

pub proof fn lemma_lt_irreflexive(a: Seq<char>)
    ensures
        !chars_lt(a, a),
    decreases a.len(),
{
    if a.len() > 0 {
        lemma_lt_irreflexive(a.drop_first());
    }
}

pub proof fn lemma_lt_total(a: Seq<char>, b: Seq<char>)
    ensures
        a == b || chars_lt(a, b) || chars_lt(b, a),
    decreases a.len(),
{
    if a.len() > 0 && b.len() > 0 && a[0] == b[0] {
        lemma_lt_total(a.drop_first(), b.drop_first());
        if a.drop_first() == b.drop_first() {
            assert(a =~= seq![a[0]] + a.drop_first());
            assert(b =~= seq![b[0]] + b.drop_first());
            assert(a =~= b);
        }
    } else if a.len() == 0 && b.len() == 0 {
        assert(a =~= b);
    } else if a.len() > 0 && b.len() > 0 {
        vstd::utf8::char_u32_cast(a[0], a[0] as u32);
        vstd::utf8::char_u32_cast(b[0], b[0] as u32);
    }
}

pub proof fn lemma_lt_asymmetric(a: Seq<char>, b: Seq<char>)
    ensures
        chars_lt(a, b) ==> !chars_lt(b, a),
    decreases a.len(),
{
    if a.len() > 0 && b.len() > 0 && a[0] == b[0] {
        lemma_lt_asymmetric(a.drop_first(), b.drop_first());
    }
}

pub proof fn lemma_lt_transitive(a: Seq<char>, b: Seq<char>, c: Seq<char>)
    requires
        chars_lt(a, b),
        chars_lt(b, c),
    ensures
        chars_lt(a, c),
    decreases a.len(),
{
    if a.len() > 0 && b.len() > 0 && c.len() > 0 && a[0] == b[0] && b[0] == c[0] {
        lemma_lt_transitive(a.drop_first(), b.drop_first(), c.drop_first());
    }
}

/// Whether `a` sorts strictly before `b`.
pub fn str_less(a: &str, b: &str) -> (r: bool)
    ensures
        r == chars_lt(a@, b@),
{
    let x = chars_of(a);
    let y = chars_of(b);
    let mut i: usize = 0;
    assert(x@.skip(0) =~= x@);
    assert(y@.skip(0) =~= y@);
    while i < x.len() && i < y.len() && x[i] == y[i]
        invariant
            i <= x.len(),
            i <= y.len(),
            chars_lt(a@, b@) == chars_lt(x@.skip(i as int), y@.skip(i as int)),
        decreases x.len() - i,
    {
        assert(x@.skip(i as int).drop_first() =~= x@.skip(i + 1));
        assert(y@.skip(i as int).drop_first() =~= y@.skip(i + 1));
        i = i + 1;
    }
    if i < x.len() {
        assert(x@.skip(i as int)[0] == x@[i as int]);
    }
    if i < y.len() {
        assert(y@.skip(i as int)[0] == y@[i as int]);
    }
    if i == y.len() {
        false
    } else if i == x.len() {
        true
    } else {
        (x[i] as u32) < (y[i] as u32)
    }
}

/// The strings of `v` in ascending order (`sort` on `Vec<String>`).
pub fn sort_strings(v: Vec<String>) -> (r: Vec<String>)
    ensures
        sorted(views(r@)),
        views(r@).to_multiset() == views(v@).to_multiset(),
{
    broadcast use vstd::seq_lib::group_to_multiset_ensures;
    let mut r: Vec<String> = Vec::new();
    let mut i: usize = 0;
    while i < v.len()
        invariant
            i <= v.len(),
            sorted(views(r@)),
            views(r@).to_multiset() == views(v@.take(i as int)).to_multiset(),
        decreases v.len() - i,
    {
        let x = v[i].clone();
        let mut p: usize = 0;
        while p < r.len() && !str_less(x.as_str(), r[p].as_str())
            invariant
                p <= r.len(),
                forall|k: int| 0 <= k < p ==> !chars_lt(x@, #[trigger] r@[k]@),
            decreases r.len() - p,
        {
            p = p + 1;
        }
        assert(p == r.len() || chars_lt(x@, r@[p as int]@));
        let ghost old_views = views(r@);
        let ghost xv = x@;
        r.insert(p, x);
        proof {
            let nv = views(r@);
            assert(nv =~= old_views.insert(p as int, xv));
            assert forall|a: int, b: int| 0 <= a < b < nv.len() implies chars_le(nv[a], nv[b]) by {
                if b == p {
                    lemma_lt_total(old_views[a], xv);
                } else if a == p {
                    assert(nv[b] == old_views[b - 1]);
                    if b - 1 > p {
                        lemma_lt_total(xv, old_views[p as int]);
                        assert(chars_le(old_views[p as int], old_views[b - 1]));
                        if old_views[p as int] != old_views[b - 1] {
                            lemma_lt_transitive(xv, old_views[p as int], old_views[b - 1]);
                        }
                    }
                } else if a > p {
                    assert(nv[a] == old_views[a - 1]);
                    assert(nv[b] == old_views[b - 1]);
                } else if b > p {
                    assert(nv[b] == old_views[b - 1]);
                }
            }
            vstd::seq_lib::to_multiset_insert(old_views, p as int, xv);
            assert(v@.take(i + 1) =~= v@.take(i as int).push(v@[i as int]));
            assert(views(v@.take(i + 1)) =~= views(v@.take(i as int)).push(xv));
            vstd::seq_lib::to_multiset_build(views(v@.take(i as int)), xv);
        }
        i = i + 1;
    }
    assert(v@.take(v.len() as int) =~= v@);
    r
}

// ---------------------------------------------------------------------------
// Joining
// ---------------------------------------------------------------------------

/// The parts separated by `sep` (`[..].join(sep)`).
pub open spec fn joined(parts: Seq<Seq<char>>, sep: Seq<char>) -> Seq<char>
    decreases parts.len(),
{
    if parts.len() == 0 {
        Seq::empty()
    } else if parts.len() == 1 {
        parts[0]
    } else {
        joined(parts.drop_last(), sep) + sep + parts.last()
    }
}

/// `parts.join(sep)`.
pub fn join(parts: &Vec<String>, sep: &str) -> (r: String)
    ensures
        r@ == joined(views(parts@), sep@),
{
    let mut r = String::new();
    let mut i: usize = 0;
    while i < parts.len()
        invariant
            i <= parts.len(),
            r@ == joined(views(parts@).take(i as int), sep@),
        decreases parts.len() - i,
    {
        let ghost before = views(parts@).take(i as int);
        if i > 0 {
            r.append(sep);
        }
        r.append(parts[i].as_str());
        proof {
            let after = views(parts@).take(i + 1);
            assert(after.drop_last() =~= before);
            if i == 0 {
                assert(after =~= seq![parts@[0]@]);
            }
        }
        i = i + 1;
    }
    assert(views(parts@).take(parts.len() as int) =~= views(parts@));
    r
}

} // verus!
