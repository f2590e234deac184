//! Operations on text that the standard library provides: building, order,
//! search, case and trimming. Their contracts are taken from its
//! documentation; none of them is proved here.

use vstd::prelude::*;

verus! {

/// `String::push`: appends one character to the end of the string and
/// leaves the rest as it was.
pub assume_specification[ String::push ](s: &mut String, c: char)
    ensures
        final(s)@ == old(s)@.push(c),
;

/// `String::clear`: the string becomes empty.
pub assume_specification[ String::clear ](s: &mut String)
    ensures
        final(s)@ == Seq::<char>::empty(),
;

/// `String::pop`: removes the last character and returns it; `None`, and
/// no change, where the string is empty.
pub assume_specification[ String::pop ](s: &mut String) -> (last: Option<char>)
    ensures
        old(s)@.len() == 0 ==> last is None && final(s)@ == old(s)@,
        old(s)@.len() > 0 ==> last == Some(old(s)@.last()) && final(s)@ == old(s)@.drop_last(),
;

/// Whether `a` stands before `b` in the order of strings: at the first
/// position where they differ `a` has the lesser character, or `a` is a
/// proper beginning of `b`.
pub open spec fn lex_less(a: Seq<char>, b: Seq<char>) -> bool
    decreases a.len(),
{
    if b.len() == 0 {
        false
    } else if a.len() == 0 {
        true
    } else if a[0] != b[0] {
        a[0] < b[0]
    } else {
        lex_less(a.drop_first(), b.drop_first())
    }
}

/// Whether `needle` occurs in `haystack` as a run of neighbouring
/// characters.
pub open spec fn has_run(haystack: Seq<char>, needle: Seq<char>) -> bool {
    exists|k: int|
        0 <= k && k + needle.len() <= haystack.len() && #[trigger] haystack.subrange(
            k,
            k + needle.len(),
        ) == needle
}

/// The string in lower case, as `str::to_lowercase` gives it.
pub uninterp spec fn lowercase(s: Seq<char>) -> Seq<char>;

/// The string without the white space at its ends, as `str::trim` gives it.
pub uninterp spec fn trimmed(s: Seq<char>) -> Seq<char>;

/// The order of strings is strict: nothing stands before itself, and of two
/// strings at most one stands before the other.
pub proof fn lemma_lex_less_strict(a: Seq<char>, b: Seq<char>)
    ensures
        !lex_less(a, a),
        !(lex_less(a, b) && lex_less(b, a)),
    decreases a.len(),
{
    if a.len() > 0 {
        lemma_lex_less_strict(a.drop_first(), a.drop_first());
        if b.len() > 0 && a[0] == b[0] {
            lemma_lex_less_strict(a.drop_first(), b.drop_first());
        }
    }
}

/// Of two different strings one stands before the other.
pub proof fn lemma_lex_less_total(a: Seq<char>, b: Seq<char>)
    ensures
        a == b || lex_less(a, b) || lex_less(b, a),
    decreases a.len(),
{
    if a.len() == 0 || b.len() == 0 {
        if a.len() == 0 && b.len() == 0 {
            assert(a =~= b);
        }
    } else if a[0] == b[0] {
        lemma_lex_less_total(a.drop_first(), b.drop_first());
        if a.drop_first() == b.drop_first() {
            assert(a =~= seq![a[0]] + a.drop_first());
            assert(b =~= seq![b[0]] + b.drop_first());
        }
    }
}

/// The order of strings carries over: what stands before a string stands
/// before all that the string stands before.
pub proof fn lemma_lex_less_transitive(a: Seq<char>, b: Seq<char>, c: Seq<char>)
    requires
        lex_less(a, b),
        lex_less(b, c),
    ensures
        lex_less(a, c),
    decreases a.len(),
{
    if a.len() > 0 && a[0] == b[0] && b[0] == c[0] {
        lemma_lex_less_transitive(a.drop_first(), b.drop_first(), c.drop_first());
    }
}

/// `<` on `str`: the standard library orders strings lexicographically by
/// their bytes, which is the order of their characters by code point.
#[verifier::external_body]
pub(crate) fn str_less(a: &str, b: &str) -> (less: bool)
    ensures
        less == lex_less(a@, b@),
{
    a < b
}

/// `str::contains` with a string as the pattern: whether the pattern
/// matches a part of the string.
#[verifier::external_body]
pub(crate) fn str_contains(haystack: &str, needle: &str) -> (found: bool)
    ensures
        found == has_run(haystack@, needle@),
{
    haystack.contains(needle)
}

/// `str::to_lowercase`: the lower-case equivalent of the string, by the
/// Unicode tables of the standard library.
#[verifier::external_body]
pub(crate) fn to_lowercase(s: &str) -> (lower: String)
    ensures
        lower@ == lowercase(s@),
{
    s.to_lowercase()
}

/// `str::trim`: the string without leading and trailing white space, as
/// Unicode defines white space.
#[verifier::external_body]
pub(crate) fn trim(s: &str) -> (inner: &str)
    ensures
        inner@ == trimmed(s@),
{
    s.trim()
}

} // verus!
