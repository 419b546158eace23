//! Text helpers shared by the rule, filter and catalog logic.
//!
//! Case folding follows Unicode tables, which are std's business; its result is named
//! here and the rest of the crate reasons over that name.
use vstd::prelude::*;
use vstd::string::StrSliceExecFns;

verus! {

/// The Unicode lowercase mapping of a string, as computed by `str::to_lowercase`.
pub uninterp spec fn lowercase(s: Seq<char>) -> Seq<char>;

/// The characters with the Unicode White_Space property (what `char::is_whitespace`
/// tests, and what `str::trim` removes).
pub open spec fn is_white_space(c: char) -> bool {
    ||| '\u{9}' <= c && c <= '\u{D}'
    ||| c == ' '
    ||| c == '\u{85}'
    ||| c == '\u{A0}'
    ||| c == '\u{1680}'
    ||| '\u{2000}' <= c && c <= '\u{200A}'
    ||| c == '\u{2028}'
    ||| c == '\u{2029}'
    ||| c == '\u{202F}'
    ||| c == '\u{205F}'
    ||| c == '\u{3000}'
}

/// `s[a..b]` is `s` without its leading and trailing white space.
pub open spec fn trim_bounds(s: Seq<char>, a: int, b: int) -> bool {
    &&& 0 <= a <= b <= s.len()
    &&& forall|i: int| 0 <= i < a ==> is_white_space(#[trigger] s[i])
    &&& forall|i: int| b <= i < s.len() ==> is_white_space(#[trigger] s[i])
    &&& a < b ==> !is_white_space(s[a]) && !is_white_space(s[b - 1])
}

/// A string with leading and trailing white space removed (what `str::trim` returns).
pub open spec fn trimmed(s: Seq<char>) -> Seq<char> {
    let (a, b) = choose|a: int, b: int| trim_bounds(s, a, b);
    s.subrange(a, b)
}

/// All bounds that trim a string give the same result.
proof fn lemma_trim_bounds_unique(s: Seq<char>, a: int, b: int, c: int, d: int)
    requires
        trim_bounds(s, a, b),
        trim_bounds(s, c, d),
    ensures
        s.subrange(a, b) == s.subrange(c, d),
{
    if a < b {
        assert(!is_white_space(s[a]));
        if c < d {
            assert(!is_white_space(s[c]));
            assert(!is_white_space(s[d - 1]));
            assert(!is_white_space(s[b - 1]));
            assert(a == c);
            assert(b == d);
        } else {
            assert(a < c || a >= d);
        }
    } else if c < d {
        assert(!is_white_space(s[c]));
        assert(c < a || c >= b);
    }
    assert(s.subrange(a, b) =~= s.subrange(c, d));
}

/// Trimming an ASCII string gives an ASCII string, and trimming two strings equal up
/// to ASCII case gives strings equal up to ASCII case.
pub proof fn lemma_trimmed_ascii(a: Seq<char>, b: Seq<char>)
    requires
        is_ascii_text(a),
        eq_ignore_ascii_case_spec(a, b),
    ensures
        is_ascii_text(trimmed(a)),
        is_ascii_text(b),
        eq_ignore_ascii_case_spec(trimmed(a), trimmed(b)),
{
    assert forall|i: int| 0 <= i < a.len() implies is_white_space(#[trigger] a[i]) == is_white_space(b[i])
        && (b[i] as u32) < 128 by {
        assert(ascii_lower(a[i]) == ascii_lower(b[i]));
        assert((a[i] as u32) < 128);
    }
    assert forall|i: int| 0 <= i < b.len() implies (#[trigger] b[i] as u32) < 128 by {
        assert(ascii_lower(a[i]) == ascii_lower(b[i]));
        assert((a[i] as u32) < 128);
    }
    lemma_trim_bounds_exist(a);
    let (x, y) = choose|x: int, y: int| trim_bounds(a, x, y);
    assert(trim_bounds(b, x, y)) by {
        assert forall|i: int| 0 <= i < x implies is_white_space(#[trigger] b[i]) by {
            assert(is_white_space(a[i]));
        }
        assert forall|i: int| y <= i < b.len() implies is_white_space(#[trigger] b[i]) by {
            assert(is_white_space(a[i]));
        }
    }
    let (u, v) = choose|u: int, v: int| trim_bounds(b, u, v);
    lemma_trim_bounds_unique(b, x, y, u, v);
    assert(trimmed(a) == a.subrange(x, y));
    assert(trimmed(b) == b.subrange(x, y));
    assert forall|i: int| 0 <= i < trimmed(a).len() implies (#[trigger] trimmed(a)[i] as u32) < 128 by {
        assert(trimmed(a)[i] == a[x + i]);
    }
    assert forall|i: int| 0 <= i < trimmed(a).len() implies ascii_lower(#[trigger] trimmed(a)[i]) == ascii_lower(
        trimmed(b)[i],
    ) by {
        assert(trimmed(a)[i] == a[x + i]);
        assert(trimmed(b)[i] == b[x + i]);
    }
}

/// Every string has trim bounds.
proof fn lemma_trim_bounds_exist(s: Seq<char>)
    ensures
        exists|a: int, b: int| trim_bounds(s, a, b),
    decreases s.len(),
{
    if s.len() == 0 {
        assert(trim_bounds(s, 0, 0));
    } else {
        let t = s.drop_last();
        lemma_trim_bounds_exist(t);
        let (a, b) = choose|a: int, b: int| trim_bounds(t, a, b);
        assert forall|i: int| 0 <= i < t.len() implies #[trigger] t[i] == s[i] by {}
        let n = s.len() - 1;
        if is_white_space(s[n]) {
            assert forall|i: int| 0 <= i < a implies is_white_space(#[trigger] s[i]) by {
                assert(is_white_space(t[i]));
            }
            assert forall|i: int| b <= i < s.len() implies is_white_space(#[trigger] s[i]) by {
                if i < n {
                    assert(is_white_space(t[i]));
                }
            }
            assert(trim_bounds(s, a, b));
        } else if a < b {
            assert forall|i: int| 0 <= i < a implies is_white_space(#[trigger] s[i]) by {
                assert(is_white_space(t[i]));
            }
            assert(!is_white_space(t[a]));
            assert(trim_bounds(s, a, s.len() as int));
        } else {
            assert forall|i: int| 0 <= i < n implies is_white_space(#[trigger] s[i]) by {
                assert(is_white_space(t[i]));
            }
            assert(trim_bounds(s, n, s.len() as int));
        }
    }
}

fn white_space(c: char) -> (r: bool)
    ensures
        r == is_white_space(c),
{
    ('\u{9}' <= c && c <= '\u{D}') || c == ' ' || c == '\u{85}' || c == '\u{A0}' || c == '\u{1680}'
        || ('\u{2000}' <= c && c <= '\u{200A}') || c == '\u{2028}' || c == '\u{2029}' || c == '\u{202F}'
        || c == '\u{205F}' || c == '\u{3000}'
}

/// Every character of `s` is ASCII.
pub open spec fn is_ascii_text(s: Seq<char>) -> bool {
    forall|i: int| 0 <= i < s.len() ==> (#[trigger] s[i] as u32) < 128
}

/// `s` with the ASCII letters 'A' to 'Z' mapped to 'a' to 'z'.
pub open spec fn ascii_lowercase(s: Seq<char>) -> Seq<char> {
    s.map_values(|c: char| ascii_lower(c))
}

/// Calls `str::to_lowercase`. The contract claims that the result is the Unicode
/// lowercase mapping of the argument (named `lowercase`), which depends on the
/// argument alone, and, for an all-ASCII argument, that it maps 'A' to 'Z' to 'a'
/// to 'z' and keeps every other character (the Unicode lowercase mapping of ASCII).
/// Nothing more is claimed of other characters.
#[verifier::external_body]
pub(crate) fn to_lower(s: &str) -> (r: String)
    ensures
        r@ == lowercase(s@),
        is_ascii_text(s@) ==> r@ == ascii_lowercase(s@),
{
    s.to_lowercase()
}

/// ASCII lowercasing keeps a character ASCII and changes nothing when repeated.
pub proof fn lemma_ascii_lower_char(c: char)
    requires
        (c as u32) < 128,
    ensures
        (ascii_lower(c) as u32) < 128,
        ascii_lower(ascii_lower(c)) == ascii_lower(c),
        !('A' <= ascii_lower(c) && ascii_lower(c) <= 'Z'),
{
}

/// ASCII lowercasing keeps a string ASCII and changes nothing when repeated.
pub proof fn lemma_ascii_lowercase_idempotent(s: Seq<char>)
    requires
        is_ascii_text(s),
    ensures
        is_ascii_text(ascii_lowercase(s)),
        ascii_lowercase(ascii_lowercase(s)) == ascii_lowercase(s),
{
    assert forall|i: int| 0 <= i < s.len() implies (#[trigger] ascii_lowercase(s)[i] as u32) < 128 by {
        lemma_ascii_lower_char(s[i]);
    }
    assert forall|i: int| 0 <= i < s.len() implies #[trigger] ascii_lowercase(ascii_lowercase(s))[i]
        == ascii_lowercase(s)[i] by {
        lemma_ascii_lower_char(s[i]);
    }
    assert(ascii_lowercase(ascii_lowercase(s)) =~= ascii_lowercase(s));
}

/// Two ASCII strings equal up to ASCII case have the same ASCII lowercase.
pub proof fn lemma_ascii_lowercase_case_blind(a: Seq<char>, b: Seq<char>)
    requires
        eq_ignore_ascii_case_spec(a, b),
    ensures
        ascii_lowercase(a) == ascii_lowercase(b),
{
    assert(ascii_lowercase(a) =~= ascii_lowercase(b));
}

/// `s` without its leading and trailing white space.
pub(crate) fn trim(s: &str) -> (r: &str)
    ensures
        r@ == trimmed(s@),
{
    let cs = chars_of(s);
    let n = cs.len();
    let mut a: usize = 0;
    while a < n && white_space(cs[a])
        invariant
            cs@ == s@,
            n == cs.len(),
            a <= n,
            forall|i: int| 0 <= i < a ==> is_white_space(#[trigger] s@[i]),
        decreases n - a,
    {
        a = a + 1;
    }
    let mut b: usize = n;
    while b > a && white_space(cs[b - 1])
        invariant
            cs@ == s@,
            n == cs.len(),
            a <= b <= n,
            forall|i: int| b <= i < n ==> is_white_space(#[trigger] s@[i]),
        decreases b - a,
    {
        b = b - 1;
    }
    proof {
        assert(trim_bounds(s@, a as int, b as int));
        let (c, d) = choose|c: int, d: int| trim_bounds(s@, c, d);
        lemma_trim_bounds_unique(s@, a as int, b as int, c, d);
    }
    s.substring_char(a, b)
}

/// Whether two string slices hold the same characters.
pub(crate) fn str_eq(a: &str, b: &str) -> (r: bool)
    ensures
        r == (a@ == b@),
{
    let x = chars_of(a);
    let y = chars_of(b);
    if x.len() != y.len() {
        return false;
    }
    let mut i: usize = 0;
    while i < x.len()
        invariant
            x@ == a@,
            y@ == b@,
            x.len() == y.len(),
            i <= x.len(),
            forall|j: int| 0 <= j < i ==> a@[j] == b@[j],
        decreases x.len() - i,
    {
        if x[i] != y[i] {
            return false;
        }
        i = i + 1;
    }
    assert(a@ =~= b@);
    true
}

/// The characters of `s`, in order.
pub fn chars_of(s: &str) -> (v: Vec<char>)
    ensures
        v@ == s@,
{
    let mut v: Vec<char> = Vec::new();
    for c in it: s.chars()
        invariant
            v@ == it.seq().take(it.index() as int),
            it.seq() == s@,
    {
        v.push(c);
    }
    v
}

/// `needle` occurs in `hay` as a contiguous run starting at position `i`.
pub open spec fn occurs_at(hay: Seq<char>, needle: Seq<char>, i: int) -> bool {
    0 <= i && i + needle.len() <= hay.len() && hay.subrange(i, i + needle.len()) == needle
}

/// `needle` occurs somewhere in `hay` as a contiguous run (the empty string occurs
/// in every string).
pub open spec fn contains_seq(hay: Seq<char>, needle: Seq<char>) -> bool {
    exists|i: int| occurs_at(hay, needle, i)
}

fn matches_at(hay: &Vec<char>, needle: &Vec<char>, i: usize) -> (r: bool)
    requires
        i + needle.len() <= hay.len(),
    ensures
        r == occurs_at(hay@, needle@, i as int),
{
    let mut k: usize = 0;
    while k < needle.len()
        invariant
            i + needle.len() <= hay.len(),
            k <= needle.len(),
            forall|j: int| 0 <= j < k ==> hay@[i + j] == needle@[j],
        decreases needle.len() - k,
    {
        if hay[i + k] != needle[k] {
            assert(hay@.subrange(i as int, i + needle.len())[k as int] != needle@[k as int]);
            return false;
        }
        k = k + 1;
    }
    assert(hay@.subrange(i as int, i + needle.len()) =~= needle@);
    true
}

/// Whether `needle` occurs in `hay` (the behaviour of `str::contains` with a string
/// pattern).
pub fn contains_str(hay: &str, needle: &str) -> (r: bool)
    ensures
        r == contains_seq(hay@, needle@),
{
    let h = chars_of(hay);
    let n = chars_of(needle);
    if n.len() > h.len() {
        assert forall|i: int| !occurs_at(hay@, needle@, i) by {}
        return false;
    }
    let last: usize = h.len() - n.len();
    let mut i: usize = 0;
    while i <= last
        invariant
            h@ == hay@,
            n@ == needle@,
            last + n.len() == h.len(),
            forall|j: int| 0 <= j < i ==> !occurs_at(hay@, needle@, j),
        decreases last + 1 - i,
    {
        if matches_at(&h, &n, i) {
            return true;
        }
        if i == last {
            assert forall|j: int| !occurs_at(hay@, needle@, j) by {
                if 0 <= j && j <= i {
                } else if j > i {
                }
            }
            return false;
        }
        i = i + 1;
    }
    false
}

/// ASCII-only lowercase of one character (what `char::to_ascii_lowercase` does).
pub open spec fn ascii_lower(c: char) -> char {
    if 'A' <= c && c <= 'Z' {
        (((c as u32) + 32) as u8) as char
    } else {
        c
    }
}

/// The two strings are equal when ASCII letters are compared without regard to case
/// (the behaviour of `str::eq_ignore_ascii_case`).
pub open spec fn eq_ignore_ascii_case_spec(a: Seq<char>, b: Seq<char>) -> bool {
    a.len() == b.len() && forall|i: int| 0 <= i < a.len() ==> ascii_lower(#[trigger] a[i]) == ascii_lower(b[i])
}

fn lower_ascii_char(c: char) -> (r: char)
    ensures
        r == ascii_lower(c),
{
    if 'A' <= c && c <= 'Z' {
        let u: u32 = c as u32;
        ((u + 32) as u8) as char
    } else {
        c
    }
}

/// Whether `a` and `b` are equal up to ASCII case.
pub fn eq_ignore_ascii_case(a: &str, b: &str) -> (r: bool)
    ensures
        r == eq_ignore_ascii_case_spec(a@, b@),
{
    let x = chars_of(a);
    let y = chars_of(b);
    if x.len() != y.len() {
        return false;
    }
    let mut i: usize = 0;
    while i < x.len()
        invariant
            x@ == a@,
            y@ == b@,
            x.len() == y.len(),
            i <= x.len(),
            forall|j: int| 0 <= j < i ==> ascii_lower(#[trigger] a@[j]) == ascii_lower(b@[j]),
        decreases x.len() - i,
    {
        if lower_ascii_char(x[i]) != lower_ascii_char(y[i]) {
            return false;
        }
        i = i + 1;
    }
    true
}

} // verus!
