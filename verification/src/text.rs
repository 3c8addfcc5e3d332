//! Specifications of the standard string operations the library relies on,
//! each behind a small wrapper whose contract restates the documented
//! behaviour of the std function it calls.
use vstd::prelude::*;

verus! {

/// Calls `<str as PartialEq>::eq`: two string slices are equal exactly when
/// they hold the same characters.
#[verifier::external_body]
pub(crate) fn str_eq(a: &str, b: &str) -> (r: bool)
    ensures
        r == (a@ == b@),
{
    a == b
}

/// Calls `str::strip_prefix` with a string pattern: the rest of `s` after
/// `prefix` when `s` starts with `prefix`, and `None` otherwise.
#[verifier::external_body]
pub(crate) fn str_strip_prefix<'a>(s: &'a str, prefix: &str) -> (r: Option<&'a str>)
    ensures
        r is Some <==> prefix@.is_prefix_of(s@),
        r matches Some(rest) ==> rest@ == s@.skip(prefix@.len() as int),
{
    s.strip_prefix(prefix)
}

/// Calls `str::strip_suffix` with a string pattern: what precedes `suffix`
/// when `s` ends with `suffix`, and `None` otherwise.
#[verifier::external_body]
pub(crate) fn str_strip_suffix<'a>(s: &'a str, suffix: &str) -> (r: Option<&'a str>)
    ensures
        r is Some <==> suffix@.is_suffix_of(s@),
        r matches Some(rest) ==> rest@ == s@.take(s@.len() - suffix@.len()),
{
    s.strip_suffix(suffix)
}

/// `c` with an ASCII upper-case letter mapped to its lower-case letter.
pub open spec fn ascii_lower(c: char) -> char {
    if 'A' <= c && c <= 'Z' {
        ((c as u32) + 32) as char
    } else {
        c
    }
}

/// `a` and `b` are equal when ASCII letters are compared without case.
pub open spec fn equal_ignoring_ascii_case(a: Seq<char>, b: Seq<char>) -> bool {
    &&& a.len() == b.len()
    &&& forall|i: int| 0 <= i < a.len() ==> ascii_lower(#[trigger] a[i]) == ascii_lower(b[i])
}

/// Calls `str::eq_ignore_ascii_case`: the two strings are equal up to the
/// case of ASCII letters.
#[verifier::external_body]
pub(crate) fn str_eq_ignore_ascii_case(a: &str, b: &str) -> (r: bool)
    ensures
        r == equal_ignoring_ascii_case(a@, b@),
{
    a.eq_ignore_ascii_case(b)
}

/// `a` comes strictly before `b` in the lexicographic order of code points,
/// the order `<` gives on string slices.
pub open spec fn lex_less(a: Seq<char>, b: Seq<char>) -> bool
    decreases a.len(),
{
    if b.len() == 0 {
        false
    } else if a.len() == 0 {
        true
    } else if a[0] != b[0] {
        (a[0] as int) < (b[0] as int)
    } else {
        lex_less(a.drop_first(), b.drop_first())
    }
}

/// Calls `<str as PartialOrd>::lt`: string slices are ordered
/// lexicographically by their UTF-8 bytes, which is the order of their code
/// points.
#[verifier::external_body]
pub(crate) fn str_less(a: &str, b: &str) -> (r: bool)
    ensures
        r == lex_less(a@, b@),
{
    a < b
}

/// The order is transitive.
pub proof fn lemma_lex_less_transitive(a: Seq<char>, b: Seq<char>, c: Seq<char>)
    requires
        lex_less(a, b),
        lex_less(b, c),
    ensures
        lex_less(a, c),
    decreases a.len(),
{
    if a.len() > 0 && b.len() > 0 && c.len() > 0 {
        if a[0] == b[0] && b[0] == c[0] {
            lemma_lex_less_transitive(a.drop_first(), b.drop_first(), c.drop_first());
        }
    }
}

/// Two different strings are ordered one way or the other, and never both.
pub proof fn lemma_lex_less_total(a: Seq<char>, b: Seq<char>)
    ensures
        a != b ==> lex_less(a, b) || lex_less(b, a),
        !(lex_less(a, b) && lex_less(b, a)),
    decreases a.len(),
{
    if a.len() > 0 && b.len() > 0 {
        lemma_lex_less_total(a.drop_first(), b.drop_first());
        if a[0] == b[0] && a != b {
            assert(a =~= seq![a[0]] + a.drop_first());
            assert(b =~= seq![b[0]] + b.drop_first());
            assert(a.drop_first() != b.drop_first());
        }
        if a[0] != b[0] {
            assert((a[0] as int) != (b[0] as int));
        }
    } else if a.len() == 0 && b.len() == 0 {
        assert(a =~= b);
    }
}

/// `c` has the Unicode `White_Space` property, which is what
/// `char::is_whitespace`, `str::trim` and `str::trim_start` test.
pub open spec fn is_unicode_whitespace(c: char) -> bool {
    ||| '\u{9}' <= c && c <= '\u{d}'
    ||| c == ' '
    ||| c == '\u{85}'
    ||| c == '\u{a0}'
    ||| c == '\u{1680}'
    ||| '\u{2000}' <= c && c <= '\u{200a}'
    ||| c == '\u{2028}'
    ||| c == '\u{2029}'
    ||| c == '\u{202f}'
    ||| c == '\u{205f}'
    ||| c == '\u{3000}'
}

/// `s` without its leading whitespace.
pub open spec fn trim_start_spec(s: Seq<char>) -> Seq<char>
    decreases s.len(),
{
    if s.len() > 0 && is_unicode_whitespace(s[0]) {
        trim_start_spec(s.drop_first())
    } else {
        s
    }
}

/// `s` without its trailing whitespace.
pub open spec fn trim_end_spec(s: Seq<char>) -> Seq<char>
    decreases s.len(),
{
    if s.len() > 0 && is_unicode_whitespace(s.last()) {
        trim_end_spec(s.drop_last())
    } else {
        s
    }
}

/// `s` without its leading and trailing whitespace.
pub open spec fn trim_spec(s: Seq<char>) -> Seq<char> {
    trim_end_spec(trim_start_spec(s))
}

/// `s` without its trailing occurrences of the character `c`.
pub open spec fn trim_end_char_spec(s: Seq<char>, c: char) -> Seq<char>
    decreases s.len(),
{
    if s.len() > 0 && s.last() == c {
        trim_end_char_spec(s.drop_last(), c)
    } else {
        s
    }
}

/// Calls `str::trim`: removes leading and trailing whitespace.
#[verifier::external_body]
pub(crate) fn str_trim(s: &str) -> (r: &str)
    ensures
        r@ == trim_spec(s@),
{
    s.trim()
}

/// Calls `str::trim_start`: removes leading whitespace.
#[verifier::external_body]
pub(crate) fn str_trim_start(s: &str) -> (r: &str)
    ensures
        r@ == trim_start_spec(s@),
{
    s.trim_start()
}

/// Calls `str::trim_end_matches` with a `char` pattern: removes every
/// trailing occurrence of `c`.
#[verifier::external_body]
pub(crate) fn str_trim_end_matches_char(s: &str, c: char) -> (r: &str)
    ensures
        r@ == trim_end_char_spec(s@, c),
{
    s.trim_end_matches(c)
}

/// Calls `std::str::from_utf8`: the text the bytes encode when they are
/// valid UTF-8, and `None` otherwise.
#[verifier::external_body]
pub(crate) fn str_from_utf8(bytes: &[u8]) -> (r: Option<&str>)
    ensures
        r is Some <==> vstd::utf8::valid_utf8(bytes@),
        r matches Some(s) ==> s@ == vstd::utf8::decode_utf8(bytes@),
{
    std::str::from_utf8(bytes).ok()
}

/// Trimming the trailing `c`s of `s` leaves the longest start of `s` that
/// does not end with `c`: what is removed is `c`s only, and what remains does
/// not end with `c`.
pub proof fn lemma_trim_end_char(s: Seq<char>, c: char)
    ensures
        trim_end_char_spec(s, c).len() <= s.len(),
        trim_end_char_spec(s, c) == s.take(trim_end_char_spec(s, c).len() as int),
        forall|i: int| trim_end_char_spec(s, c).len() <= i < s.len() ==> s[i] == c,
        trim_end_char_spec(s, c).len() > 0 ==> trim_end_char_spec(s, c).last() != c,
    decreases s.len(),
{
    if s.len() > 0 && s.last() == c {
        lemma_trim_end_char(s.drop_last(), c);
        let r = trim_end_char_spec(s, c);
        assert(r == s.drop_last().take(r.len() as int));
        assert(s.drop_last().take(r.len() as int) =~= s.take(r.len() as int));
        assert forall|i: int| r.len() <= i < s.len() implies s[i] == c by {
            if i < s.len() - 1 {
                assert(s.drop_last()[i] == s[i]);
            }
        }
    } else {
        assert(s.take(s.len() as int) =~= s);
    }
}

/// Lower-casing changes only the ASCII capitals, each to its small letter.
pub proof fn lemma_ascii_lower(ch: char)
    ensures
        'A' <= ch <= 'Z' ==> ascii_lower(ch) as u32 == ch as u32 + 32,
        !('A' <= ch <= 'Z') ==> ascii_lower(ch) == ch,
{
}

/// The order is that of code points, position by position: a proper start
/// of a string comes before it, and otherwise the first differing character
/// decides, the smaller code point first.
pub proof fn lemma_lex_less_is_code_point_order(a: Seq<char>, b: Seq<char>, i: int)
    ensures
        a.len() < b.len() && a == b.take(a.len() as int) ==> lex_less(a, b),
        (0 <= i < a.len() && i < b.len() && a.take(i) == b.take(i) && a[i] != b[i]) ==> (lex_less(a, b)
            <==> (a[i] as int) < (b[i] as int)),
    decreases a.len(),
{
    if a.len() > 0 && b.len() > 0 {
        if a.len() < b.len() && a == b.take(a.len() as int) {
            assert(a[0] == b[0]);
            assert(a.drop_first() =~= b.drop_first().take(a.drop_first().len() as int));
        }
        if 0 < i < a.len() && i < b.len() && a.take(i) == b.take(i) && a[i] != b[i] {
            assert(a[0] == a.take(i)[0] && b[0] == b.take(i)[0]);
            assert(a.drop_first().take(i - 1) =~= a.take(i).drop_first());
            assert(b.drop_first().take(i - 1) =~= b.take(i).drop_first());
        }
        lemma_lex_less_is_code_point_order(a.drop_first(), b.drop_first(), i - 1);
    }
}

} // verus!
