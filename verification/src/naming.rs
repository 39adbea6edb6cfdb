use vstd::prelude::*;
use crate::config::opt_view;
use crate::text::{
    lemma_leading_stops, lemma_trailing_bound, leading, trailing,
    chars_of, is_alphanumeric, lemma_leading_exact, lemma_trailing_exact, owned, push_char, string_of,
    trimmed, unicode_alphanumeric,
};

verus! {

/// A character kept in directory names: letters, digits, `-`, `_` and `.`.
pub open spec fn dir_safe(c: char) -> bool {
    unicode_alphanumeric(c) || c == '-' || c == '_' || c == '.'
}

/// A character of a directory name: itself when safe, `_` otherwise.
pub open spec fn dir_char(c: char) -> char {
    if dir_safe(c) { c } else { '_' }
}

pub open spec fn underscore() -> spec_fn(char) -> bool {
    |c: char| c == '_'
}

/// The directory name for a display name: every unsafe character becomes
/// `_`, leading and trailing `_` are dropped, and a name left empty becomes `_`.
pub open spec fn spec_sanitize(name: Seq<char>) -> Seq<char> {
    let t = trimmed(name.map_values(|c: char| dir_char(c)), underscore());
    if t.len() == 0 { seq!['_'] } else { t }
}

/// Every character of `s` is ASCII (code below 128).
pub open spec fn ascii_text(s: Seq<char>) -> bool {
    forall|i: int| 0 <= i < s.len() ==> (#[trigger] s[i] as u32) < 128
}

/// A character of a directory name by ASCII classes alone: ASCII letters,
/// digits, `-`, `_` and `.` stay, anything else becomes `_`.
pub open spec fn ascii_dir_char(c: char) -> char {
    if crate::text::ascii_alphanumeric(c) || c == '-' || c == '_' || c == '.' { c } else { '_' }
}

/// The dashboard's directory name for a display name (its link into the
/// file browser): characters other than letters, digits, `.`, `_` and `-`
/// become `_`, leading and trailing `_` are dropped, and an empty result is
/// `_`. Written for ASCII names, where letters and digits are the ASCII ones.
pub open spec fn dashboard_dir_name(name: Seq<char>) -> Seq<char> {
    let t = trimmed(name.map_values(|c: char| ascii_dir_char(c)), underscore());
    if t.len() == 0 { seq!['_'] } else { t }
}

/// `r` is the stretch of `name` from position `a`, with letters and digits
/// (Unicode), `-`, `_` and `.` kept and every other character replaced by
/// `_`, and it neither starts nor ends with `_`.
pub open spec fn mapped_stretch(name: Seq<char>, r: Seq<char>, a: int) -> bool {
    &&& 0 <= a
    &&& a + r.len() <= name.len()
    &&& r.len() > 0
    &&& r[0] != '_'
    &&& r.last() != '_'
    &&& forall|i: int| 0 <= i < r.len() ==> {
        let c = #[trigger] name[a + i];
        if unicode_alphanumeric(c) || c == '-' || c == '_' || c == '.' {
            r[i] == c
        } else {
            r[i] == '_'
        }
    }
}

/// Directory names are made of one stretch of the display name in which
/// letters and digits (in the Unicode sense), `-`, `_` and `.` are kept and
/// every other character is replaced by `_`, the stretch neither starting
/// nor ending with `_`; a name with nothing left is `_`. So every character
/// of a directory name is a letter, a digit, `-`, `_` or `.`.
pub proof fn law_sanitized_characters(name: Seq<char>)
    ensures
        forall|i: int| 0 <= i < spec_sanitize(name).len() ==> {
            let c = #[trigger] spec_sanitize(name)[i];
            unicode_alphanumeric(c) || c == '-' || c == '_' || c == '.'
        },
        spec_sanitize(name) == seq!['_'] || exists|a: int| #[trigger] mapped_stretch(name, spec_sanitize(name), a),
{
    let m = name.map_values(|c: char| dir_char(c));
    let r = spec_sanitize(name);
    lemma_leading_stops(m, underscore());
    let a = leading(m, underscore());
    if a < m.len() {
        lemma_trailing_bound(m, underscore(), a as int);
        let b = m.len() - trailing(m, underscore());
        assert(r =~= m.subrange(a as int, b));
        assert(r.len() > 0);
        assert(r[0] == m[a as int]);
        assert(r[0] != '_');
        lemma_trailing_exact_stop(m, underscore());
        assert(r.last() == m[b - 1]);
        assert forall|i: int| 0 <= i < r.len() implies {
            let c = #[trigger] name[a + i];
            if unicode_alphanumeric(c) || c == '-' || c == '_' || c == '.' {
                r[i] == c
            } else {
                r[i] == '_'
            }
        } by {
            assert(r[i] == m[a + i]);
        }
        assert forall|i: int| 0 <= i < r.len() implies {
            let c = #[trigger] r[i];
            unicode_alphanumeric(c) || c == '-' || c == '_' || c == '.'
        } by {
            assert(r[i] == m[a + i]);
        }
        assert(mapped_stretch(name, r, a as int));
    } else {
        assert(r =~= seq!['_']);
    }
}

/// The last character before the trailing run does not satisfy `p`.
proof fn lemma_trailing_exact_stop(s: Seq<char>, p: spec_fn(char) -> bool)
    requires
        trailing(s, p) < s.len(),
    ensures
        !p(s[s.len() - 1 - trailing(s, p)]),
    decreases s.len(),
{
    if s.len() > 0 && p(s.last()) {
        let t = s.drop_last();
        lemma_trailing_exact_stop(t, p);
        assert(s[s.len() - 1 - trailing(s, p)] == t[t.len() - 1 - trailing(t, p)]);
    }
}

/// Turns a display name into a name that is safe as one directory of a path.
/// For an ASCII name it is the directory the dashboard links to.
pub fn sanitize_dir_name(name: &str) -> (r: String)
    ensures
        r@ == spec_sanitize(name@),
        ascii_text(name@) ==> r@ == dashboard_dir_name(name@),
        forall|i: int| 0 <= i < r@.len() ==> {
            let c = #[trigger] r@[i];
            unicode_alphanumeric(c) || c == '-' || c == '_' || c == '.'
        },
        r@.len() > 0,
        forall|i: int| 0 <= i < r@.len() ==> #[trigger] r@[i] != '/' && r@[i] != '\\',
{
    let src = chars_of(name);
    let mut mapped: Vec<char> = Vec::new();
    let mut i: usize = 0;
    while i < src.len()
        invariant
            i <= src.len(),
            src@ == name@,
            mapped@ == src@.take(i as int).map_values(|c: char| dir_char(c)),
            forall|k: int| 0 <= k < mapped@.len() ==> #[trigger] mapped@[k] != '/' && mapped@[k] != '\\',
            forall|k: int| 0 <= k < i && (src@[k] as u32) < 128 ==> #[trigger] mapped@[k] == ascii_dir_char(src@[k]),
        decreases src.len() - i,
    {
        let c = src[i];
        let keep = is_alphanumeric(c) || c == '-' || c == '_' || c == '.';
        mapped.push(if keep { c } else { '_' });
        i = i + 1;
        assert(mapped@ =~= src@.take(i as int).map_values(|c: char| dir_char(c)));
    }
    assert(src@.take(src.len() as int) =~= src@);
    let ghost m = mapped@;
    proof {
        if ascii_text(name@) {
            assert(m =~= name@.map_values(|c: char| ascii_dir_char(c)));
        }
    }
    let n = mapped.len();
    let mut a: usize = 0;
    while a < n && mapped[a] == '_'
        invariant
            a <= n == mapped@.len(),
            forall|k: int| 0 <= k < a ==> mapped@[k] == '_',
        decreases n - a,
    {
        a = a + 1;
    }
    proof {
        assert forall|k: int| 0 <= k < a implies (underscore())(#[trigger] m[k]) by {}
        lemma_leading_exact(m, underscore(), a as int);
    }
    if a == n {
        let mut r = String::new();
        push_char(&mut r, '_');
        return r;
    }
    let mut b: usize = n;
    while b > a && mapped[b - 1] == '_'
        invariant
            a < n == mapped@.len(),
            a <= b <= n,
            forall|k: int| b <= k < n ==> mapped@[k] == '_',
        decreases b,
    {
        b = b - 1;
    }
    proof {
        assert forall|k: int| b <= k < n implies (underscore())(#[trigger] m[k]) by {}
        lemma_trailing_exact(m, underscore(), b as int);
    }
    let r = string_of(&mapped, a, b);
    assert forall|i: int| 0 <= i < r@.len() implies #[trigger] r@[i] != '/' && r@[i] != '\\' by {
        assert(r@[i] == m[i + a]);
    }
    r
}

/// The name shown for a camera: its configured name, or `fallback` when it has none.
pub open spec fn spec_display_name(name: Option<Seq<char>>, fallback: Seq<char>) -> Seq<char> {
    match name {
        Some(n) => n,
        None => fallback,
    }
}

/// The configured name, or `fallback` when there is none.
pub fn display_name(name: &Option<String>, fallback: &str) -> (r: String)
    ensures
        r@ == spec_display_name(opt_view(*name), fallback@),
{
    match name {
        Some(n) => n.clone(),
        None => owned(fallback),
    }
}

} // verus!
