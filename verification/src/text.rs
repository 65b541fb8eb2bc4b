//! Text helpers the decisions share: equality of string slices, Unicode
//! whitespace and trimming, and the decimal rendering of numbers in
//! messages.

use vstd::prelude::*;
use vstd::string::*;

verus! {

/// Whether `c` is Unicode `White_Space`, as `char::is_whitespace` documents it.
pub open spec fn is_space(c: char) -> bool {
    ||| c == '\t' || c == '\n' || c == '\u{b}' || c == '\u{c}' || c == '\r' || c == ' '
    ||| c == '\u{85}' || c == '\u{a0}' || c == '\u{1680}'
    ||| ('\u{2000}' <= c && c <= '\u{200a}')
    ||| c == '\u{2028}' || c == '\u{2029}' || c == '\u{202f}' || c == '\u{205f}'
    ||| c == '\u{3000}'
}

/// `is_space`, executable.
pub fn char_is_space(c: char) -> (b: bool)
    ensures
        b == is_space(c),
{
    c == '\t' || c == '\n' || c == '\u{b}' || c == '\u{c}' || c == '\r' || c == ' '
        || c == '\u{85}' || c == '\u{a0}' || c == '\u{1680}'
        || ('\u{2000}' <= c && c <= '\u{200a}')
        || c == '\u{2028}' || c == '\u{2029}' || c == '\u{202f}' || c == '\u{205f}'
        || c == '\u{3000}'
}

/// Whether `s` holds a whitespace character anywhere.
pub open spec fn has_space(s: Seq<char>) -> bool {
    exists|i: int| 0 <= i < s.len() && is_space(#[trigger] s[i])
}

/// The index of the first non-whitespace character of `s` (its length when
/// there is none).
pub open spec fn trim_start_index(s: Seq<char>) -> int
    decreases s.len(),
{
    if s.len() == 0 {
        0
    } else if is_space(s[0]) {
        1 + trim_start_index(s.drop_first())
    } else {
        0
    }
}

/// The index past the last non-whitespace character of `s` (0 when there is
/// none).
pub open spec fn trim_end_index(s: Seq<char>) -> int
    decreases s.len(),
{
    if s.len() == 0 {
        0
    } else if is_space(s.last()) {
        trim_end_index(s.drop_last())
    } else {
        s.len() as int
    }
}

/// `s` without leading and trailing whitespace, as `str::trim` gives it.
pub open spec fn trim(s: Seq<char>) -> Seq<char> {
    if trim_start_index(s) >= trim_end_index(s) {
        Seq::empty()
    } else {
        s.subrange(trim_start_index(s), trim_end_index(s))
    }
}

pub proof fn lemma_trim_start_bounds(s: Seq<char>)
    ensures
        0 <= trim_start_index(s) <= s.len(),
        forall|i: int| 0 <= i < trim_start_index(s) ==> is_space(#[trigger] s[i]),
        trim_start_index(s) < s.len() ==> !is_space(s[trim_start_index(s)]),
    decreases s.len(),
{
    if s.len() > 0 && is_space(s[0]) {
        lemma_trim_start_bounds(s.drop_first());
        assert forall|i: int| 0 <= i < trim_start_index(s) implies is_space(#[trigger] s[i]) by {
            if i > 0 {
                assert(s[i] == s.drop_first()[i - 1]);
            }
        }
    }
}

pub proof fn lemma_trim_end_bounds(s: Seq<char>)
    ensures
        0 <= trim_end_index(s) <= s.len(),
        forall|i: int| trim_end_index(s) <= i < s.len() ==> is_space(#[trigger] s[i]),
        trim_end_index(s) > 0 ==> !is_space(s[trim_end_index(s) - 1]),
    decreases s.len(),
{
    if s.len() > 0 && is_space(s.last()) {
        lemma_trim_end_bounds(s.drop_last());
        assert forall|i: int| trim_end_index(s) <= i < s.len() implies is_space(#[trigger] s[i]) by {
            if i < s.len() - 1 {
                assert(s[i] == s.drop_last()[i]);
            }
        }
    }
}

/// Whether two string slices hold the same characters.
pub fn text_eq(a: &str, b: &str) -> (eq: bool)
    ensures
        eq == (a@ == b@),
{
    let n = a.unicode_len();
    if n != b.unicode_len() {
        return false;
    }
    let mut i: usize = 0;
    while i < n
        invariant
            n == a@.len(),
            n == b@.len(),
            i <= n,
            forall|j: int| 0 <= j < i ==> a@[j] == b@[j],
        decreases n - i,
    {
        if a.get_char(i) != b.get_char(i) {
            return false;
        }
        i = i + 1;
    }
    assert(a@ =~= b@);
    true
}

/// The index of the first non-whitespace character of `s`.
fn trim_start_at(s: &str) -> (i: usize)
    ensures
        i == trim_start_index(s@),
{
    proof { lemma_trim_start_bounds(s@); }
    let n = s.unicode_len();
    let mut i: usize = 0;
    while i < n && char_is_space(s.get_char(i))
        invariant
            n == s@.len(),
            i <= n,
            i <= trim_start_index(s@),
            0 <= trim_start_index(s@) <= s@.len(),
            forall|j: int| 0 <= j < trim_start_index(s@) ==> is_space(#[trigger] s@[j]),
            trim_start_index(s@) < s@.len() ==> !is_space(s@[trim_start_index(s@)]),
        decreases n - i,
    {
        i = i + 1;
    }
    i
}

/// The index past the last non-whitespace character of `s`.
fn trim_end_at(s: &str) -> (i: usize)
    ensures
        i == trim_end_index(s@),
{
    proof { lemma_trim_end_bounds(s@); }
    let n = s.unicode_len();
    let mut i: usize = n;
    while i > 0 && char_is_space(s.get_char(i - 1))
        invariant
            n == s@.len(),
            i <= n,
            trim_end_index(s@) <= i,
            0 <= trim_end_index(s@) <= s@.len(),
            forall|j: int| trim_end_index(s@) <= j < s@.len() ==> is_space(#[trigger] s@[j]),
            trim_end_index(s@) > 0 ==> !is_space(s@[trim_end_index(s@) - 1]),
        decreases i,
    {
        i = i - 1;
    }
    i
}

/// `s` trimmed, as `str::trim` gives it.
pub fn trimmed(s: &str) -> (t: String)
    ensures
        t@ == trim(s@),
{
    let start = trim_start_at(s);
    let end = trim_end_at(s);
    proof {
        lemma_trim_start_bounds(s@);
        lemma_trim_end_bounds(s@);
    }
    if start >= end {
        String::new()
    } else {
        String::from_str(s.substring_char(start, end))
    }
}

/// Whether `s` is already trimmed.
pub fn is_trimmed(s: &str) -> (b: bool)
    ensures
        b == (trim(s@) == s@),
{
    let start = trim_start_at(s);
    let end = trim_end_at(s);
    proof {
        lemma_trim_start_bounds(s@);
        lemma_trim_end_bounds(s@);
    }
    let n = s.unicode_len();
    if start == 0 && end == n {
        proof {
            if n > 0 {
                assert(trim(s@) =~= s@);
            } else {
                assert(trim(s@) =~= s@);
            }
        }
        true
    } else {
        proof {
            if trim(s@) == s@ {
                if start >= end {
                    assert(s@.len() == 0);
                } else {
                    assert(trim(s@).len() == end - start);
                }
            }
        }
        false
    }
}

/// The decimal digit `d` (`d < 10`).
pub open spec fn digit(d: nat) -> char {
    if d == 0 {
        '0'
    } else if d == 1 {
        '1'
    } else if d == 2 {
        '2'
    } else if d == 3 {
        '3'
    } else if d == 4 {
        '4'
    } else if d == 5 {
        '5'
    } else if d == 6 {
        '6'
    } else if d == 7 {
        '7'
    } else if d == 8 {
        '8'
    } else {
        '9'
    }
}

/// `n` written in decimal, as `{}` formats an unsigned number.
pub open spec fn decimal(n: nat) -> Seq<char>
    decreases n,
{
    if n < 10 {
        seq![digit(n)]
    } else {
        decimal(n / 10) + seq![digit(n % 10)]
    }
}

/// The one-character text of the digit `d`.
fn digit_text(d: u64) -> (s: &'static str)
    requires
        d < 10,
    ensures
        s@ == seq![digit(d as nat)],
{
    proof {
        reveal_strlit("0");
        reveal_strlit("1");
        reveal_strlit("2");
        reveal_strlit("3");
        reveal_strlit("4");
        reveal_strlit("5");
        reveal_strlit("6");
        reveal_strlit("7");
        reveal_strlit("8");
        reveal_strlit("9");
    }
    if d == 0 {
        "0"
    } else if d == 1 {
        "1"
    } else if d == 2 {
        "2"
    } else if d == 3 {
        "3"
    } else if d == 4 {
        "4"
    } else if d == 5 {
        "5"
    } else if d == 6 {
        "6"
    } else if d == 7 {
        "7"
    } else if d == 8 {
        "8"
    } else {
        "9"
    }
}

/// `n` written in decimal.
pub fn decimal_text(n: u64) -> (s: String)
    ensures
        s@ == decimal(n as nat),
    decreases n,
{
    if n < 10 {
        String::from_str(digit_text(n))
    } else {
        decimal_text(n / 10).concat(digit_text(n % 10))
    }
}

/// Whether `s` begins with `prefix`.
pub open spec fn begins_with(s: Seq<char>, prefix: Seq<char>) -> bool {
    prefix.len() <= s.len() && s.subrange(0, prefix.len() as int) == prefix
}

/// `s` without `prefix`, when it begins with it.
pub fn strip_prefix(s: &str, prefix: &str) -> (r: Option<String>)
    ensures
        match r {
            Some(rest) => begins_with(s@, prefix@) && rest@ == s@.subrange(prefix@.len() as int, s@.len() as int),
            None => !begins_with(s@, prefix@),
        },
{
    let n = s.unicode_len();
    let m = prefix.unicode_len();
    if m > n {
        return None;
    }
    let mut i: usize = 0;
    while i < m
        invariant
            n == s@.len(),
            m == prefix@.len(),
            m <= n,
            i <= m,
            forall|j: int| 0 <= j < i ==> s@[j] == prefix@[j],
        decreases m - i,
    {
        if s.get_char(i) != prefix.get_char(i) {
            assert(s@.subrange(0, m as int)[i as int] != prefix@[i as int]);
            return None;
        }
        i = i + 1;
    }
    assert(s@.subrange(0, m as int) =~= prefix@);
    Some(String::from_str(s.substring_char(m, n)))
}

/// Whether every character of `s` is printable ASCII that `{:?}` leaves as
/// it is.
pub open spec fn plain_ascii(s: Seq<char>) -> bool {
    forall|i: int| 0 <= i < s.len() ==> (' ' <= #[trigger] s[i] && s[i] <= '~' && s[i] != '"' && s[i] != '\\')
}

/// `s` as `{:?}` writes a string (`format!("{s:?}")`). Of text whose every
/// character is printable ASCII other than a quote or a backslash, the
/// result is that text between double quotes; what it writes of other
/// characters (escapes) is left unsaid.
#[verifier::external_body]
pub(crate) fn debug_quoted(s: &str) -> (r: String)
    ensures
        plain_ascii(s@) ==> r@ == "\""@ + s@ + "\""@,
{
    format!("{s:?}")
}

} // verus!
