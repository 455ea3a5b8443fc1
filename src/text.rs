//! Contracts for the few `str` operations of std that the parser relies on.

use vstd::prelude::*;

verus! {

/// What `char::is_whitespace` returns for a character beyond ASCII: the
/// Unicode `White_Space` property.
pub uninterp spec fn unicode_white(c: char) -> bool;

/// What `char::is_alphanumeric` returns for a character beyond ASCII: the
/// Unicode `Alphabetic` or `Numeric` property.
pub uninterp spec fn unicode_alnum(c: char) -> bool;

/// `char::is_whitespace`: within ASCII, space and the controls from tab to
/// carriage return.
pub open spec fn white(c: char) -> bool {
    if c <= '\x7f' {
        c == ' ' || ('\t' <= c && c <= '\r')
    } else {
        unicode_white(c)
    }
}

/// `char::is_alphanumeric`: within ASCII, the letters and the digits.
pub open spec fn alnum(c: char) -> bool {
    if c <= '\x7f' {
        ('a' <= c && c <= 'z') || ('A' <= c && c <= 'Z') || ('0' <= c && c <= '9')
    } else {
        unicode_alnum(c)
    }
}

/// `s` without its leading characters of `White_Space`.
pub open spec fn trim_start(s: Seq<char>) -> Seq<char>
    decreases s.len(),
{
    if s.len() > 0 && white(s[0]) {
        trim_start(s.drop_first())
    } else {
        s
    }
}

/// `s` without its trailing characters of `White_Space`.
pub open spec fn trim_end(s: Seq<char>) -> Seq<char>
    decreases s.len(),
{
    if s.len() > 0 && white(s.last()) {
        trim_end(s.drop_last())
    } else {
        s
    }
}

/// `s` without leading or trailing whitespace.
pub open spec fn trimmed(s: Seq<char>) -> Seq<char> {
    trim_end(trim_start(s))
}

/// The parts of `s` before and after the first `d`, if `d` occurs in it.
pub open spec fn split_first(s: Seq<char>, d: char) -> Option<(Seq<char>, Seq<char>)>
    decreases s.len(),
{
    if s.len() == 0 {
        None
    } else if s[0] == d {
        Some((Seq::empty(), s.drop_first()))
    } else {
        match split_first(s.drop_first(), d) {
            Some((a, b)) => Some((seq![s[0]] + a, b)),
            None => None,
        }
    }
}

/// The parts of `s` before and after the last `d`, if `d` occurs in it.
pub open spec fn split_last(s: Seq<char>, d: char) -> Option<(Seq<char>, Seq<char>)>
    decreases s.len(),
{
    if s.len() == 0 {
        None
    } else if s.last() == d {
        Some((s.drop_last(), Seq::empty()))
    } else {
        match split_last(s.drop_last(), d) {
            Some((a, b)) => Some((a, b.push(s.last()))),
            None => None,
        }
    }
}

/// Relies on `str::trim`: the slice without leading and trailing characters
/// for which `char::is_whitespace` holds.
#[verifier::external_body]
pub(crate) fn trim(s: &str) -> (r: &str)
    ensures
        r@ == trimmed(s@),
        r@.len() > 0 ==> r@[0] <= '\x7f' || !unicode_white(r@[0]),
{
    s.trim()
}

/// Relies on `char::is_alphanumeric`.
#[verifier::external_body]
pub(crate) fn is_alphanumeric(c: char) -> (r: bool)
    ensures
        r == alnum(c),
        c > '\x7f' ==> r == unicode_alnum(c),
{
    c.is_alphanumeric()
}

/// Relies on `str::strip_prefix` with a `char` pattern: the rest of the slice
/// when it starts with `c`.
#[verifier::external_body]
pub(crate) fn strip_prefix(s: &str, c: char) -> (r: Option<&str>)
    ensures
        r is Some == (s@.len() > 0 && s@[0] == c),
        r is Some ==> r->0@ == s@.drop_first(),
{
    s.strip_prefix(c)
}

/// Relies on `str::strip_suffix` with a `char` pattern: the slice before `c`
/// when it ends with `c`.
#[verifier::external_body]
pub(crate) fn strip_suffix(s: &str, c: char) -> (r: Option<&str>)
    ensures
        r is Some == (s@.len() > 0 && s@.last() == c),
        r is Some ==> r->0@ == s@.drop_last(),
{
    s.strip_suffix(c)
}

/// Relies on `str::split_once` with a `char` pattern: the slices before and
/// after the first occurrence of `d`.
#[verifier::external_body]
pub(crate) fn split_once(s: &str, d: char) -> (r: Option<(&str, &str)>)
    ensures
        match r {
            Some((a, b)) => split_first(s@, d) == Some((a@, b@)),
            None => split_first(s@, d) is None,
        },
{
    s.split_once(d)
}

/// Relies on `str::rsplit_once` with a `char` pattern: the slices before and
/// after the last occurrence of `d`.
#[verifier::external_body]
pub(crate) fn rsplit_once(s: &str, d: char) -> (r: Option<(&str, &str)>)
    ensures
        match r {
            Some((a, b)) => split_last(s@, d) == Some((a@, b@)),
            None => split_last(s@, d) is None,
        },
{
    s.rsplit_once(d)
}

/// Relies on `<str as PartialEq>::eq`: the two slices hold the same characters.
#[verifier::external_body]
pub(crate) fn same_text(a: &str, b: &str) -> (r: bool)
    ensures
        r == (a@ == b@),
{
    a == b
}

} // verus!
