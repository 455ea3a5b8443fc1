//! Unquoting of argument text: surrounding whitespace and matching pairs of
//! double or single quotes are peeled off, as deep as they nest.

use vstd::prelude::*;
use crate::text::{trim, strip_prefix, strip_suffix, trimmed, trim_start, trim_end, white};

verus! {

/// `s` is at least two characters long and starts and ends with `c`.
pub open spec fn surrounded(s: Seq<char>, c: char) -> bool {
    s.len() >= 2 && s[0] == c && s.last() == c
}

/// `s` without its first and last character.
pub open spec fn inner(s: Seq<char>) -> Seq<char> {
    s.subrange(1, s.len() - 1)
}

/// The unquoted form of `s`: trimmed, then, while a matching pair of double
/// or of single quotes surrounds it, that pair removed and the rest unquoted.
/// Trimming never lengthens a string, so the guard on lengths always holds;
/// it is there so that the recursion is seen to end.
pub open spec fn unquoted(s: Seq<char>) -> Seq<char>
    decreases s.len(),
{
    let t = trimmed(s);
    if t.len() <= s.len() && surrounded(t, '"') {
        unquoted(inner(t))
    } else if t.len() <= s.len() && surrounded(t, '\'') {
        unquoted(inner(t))
    } else {
        t
    }
}

/// No whitespace at either end of `s`.
pub open spec fn is_trimmed(s: Seq<char>) -> bool {
    s.len() > 0 ==> !white(s[0]) && !white(s.last())
}

/// `s` is what unquoting leaves: trimmed, and not surrounded by a quote pair.
pub open spec fn is_unquoted(s: Seq<char>) -> bool {
    is_trimmed(s) && !surrounded(s, '"') && !surrounded(s, '\'')
}

proof fn lemma_trim_start(s: Seq<char>)
    ensures
        trim_start(s).len() <= s.len(),
        trim_start(s).len() > 0 ==> !white(trim_start(s)[0]),
        trim_start(s) == s.subrange(s.len() - trim_start(s).len(), s.len() as int),
    decreases s.len(),
{
    if s.len() > 0 && white(s[0]) {
        lemma_trim_start(s.drop_first());
    } else {
        assert(s == s.subrange(0, s.len() as int));
    }
}

proof fn lemma_trim_end(s: Seq<char>)
    ensures
        trim_end(s).len() <= s.len(),
        trim_end(s).len() > 0 ==> !white(trim_end(s).last()),
        trim_end(s) == s.subrange(0, trim_end(s).len() as int),
    decreases s.len(),
{
    if s.len() > 0 && white(s.last()) {
        lemma_trim_end(s.drop_last());
        assert(trim_end(s) == s.subrange(0, trim_end(s).len() as int));
    } else {
        assert(s == s.subrange(0, s.len() as int));
    }
}

/// Trimming never lengthens a string and leaves no whitespace at its ends.
proof fn lemma_trimmed(s: Seq<char>)
    ensures
        trimmed(s).len() <= s.len(),
        is_trimmed(trimmed(s)),
{
    lemma_trim_start(s);
    let a = trim_start(s);
    lemma_trim_end(a);
    let b = trim_end(a);
    if b.len() > 0 {
        assert(b[0] == a[0]);
    }
}

/// A string with no whitespace at its ends is its own trimmed form.
pub proof fn lemma_trimmed_fixed(s: Seq<char>)
    requires
        is_trimmed(s),
    ensures
        trimmed(s) == s,
{
}

/// What `unquoted` returns is trimmed and surrounded by no quote pair.
proof fn lemma_unquoted_final(s: Seq<char>)
    ensures
        is_unquoted(unquoted(s)),
        unquoted(s).len() <= s.len(),
    decreases s.len(),
{
    let t = trimmed(s);
    lemma_trimmed(s);
    if surrounded(t, '"') || surrounded(t, '\'') {
        lemma_unquoted_final(inner(t));
    }
}

/// Unquoting is idempotent: what it returns holds no more quote pairs or
/// surrounding whitespace to remove.
pub proof fn unquote_idempotent(s: Seq<char>)
    ensures
        unquoted(unquoted(s)) == unquoted(s),
{
    let u = unquoted(s);
    lemma_unquoted_final(s);
    lemma_trimmed_fixed(u);
}

/// The interior of `s` when it starts and ends with `c` and is at least two
/// characters long.
pub fn strip_surround(s: &str, c: char) -> (r: Option<&str>)
    ensures
        r is Some <==> surrounded(s@, c),
        r matches Some(t) ==> t@ == inner(s@),
{
    match strip_prefix(s, c) {
        Some(rest) => {
            let r = strip_suffix(rest, c);
            assert(r matches Some(t) ==> t@ =~= inner(s@));
            r
        },
        None => None,
    }
}

/// Recursively removes surrounding whitespace and matching pairs of double
/// and single quotes.
pub fn unquote(s: &str) -> (r: &str)
    ensures
        r@ == unquoted(s@),
    decreases s@.len(),
{
    let t = trim(s);
    proof {
        lemma_trimmed(s@);
    }
    let d = match strip_surround(t, '"') {
        Some(i) => {
            let u = unquote(i);
            proof {
                lemma_unquoted_final(i@);
            }
            u
        },
        None => t,
    };
    match strip_surround(d, '\'') {
        Some(i) => unquote(i),
        None => d,
    }
}

} // verus!
