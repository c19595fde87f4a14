//! Character-level helpers on strings: conversion, comparison, search and
//! replacement, each specified over `Seq<char>`.

use vstd::prelude::*;
use vstd::string::*;

verus! {

/// The view of an optional value.
pub open spec fn option_view<T: View>(o: Option<T>) -> Option<T::V> {
    match o {
        Some(t) => Some(t@),
        None => None,
    }
}

/// The view of a result, on either side.
pub open spec fn result_view<T: View, E: View>(r: Result<T, E>) -> Result<T::V, E::V> {
    match r {
        Ok(t) => Ok(t@),
        Err(e) => Err(e@),
    }
}

/// The view of what a result holds on success; the error stands as it is.
pub open spec fn ok_view<T: View, E>(r: Result<T, E>) -> Result<T::V, E> {
    match r {
        Ok(t) => Ok(t@),
        Err(e) => Err(e),
    }
}

/// Whether `pattern` occurs in `text` starting at position `at`.
pub open spec fn occurs_at(text: Seq<char>, at: int, pattern: Seq<char>) -> bool {
    &&& 0 <= at
    &&& at + pattern.len() <= text.len()
    &&& text.subrange(at, at + pattern.len()) == pattern
}

/// `text` with every occurrence of `pattern` replaced by `with`.
///
/// Occurrences are taken from the left and do not overlap: once an occurrence
/// is replaced, the search goes on behind it. An empty `pattern` occurs
/// nowhere.
pub open spec fn replaced(text: Seq<char>, pattern: Seq<char>, with: Seq<char>) -> Seq<char>
    decreases text.len(),
{
    if pattern.len() == 0 || text.len() == 0 {
        text
    } else if occurs_at(text, 0, pattern) {
        with + replaced(text.skip(pattern.len() as int), pattern, with)
    } else {
        seq![text[0]] + replaced(text.skip(1), pattern, with)
    }
}

/// The characters of `s`, in order.
pub fn to_chars(s: &str) -> (v: Vec<char>)
    ensures
        v@ == s@,
{
    broadcast use vstd::string::group_string_axioms;

    let mut v: Vec<char> = Vec::new();
    for c in it: s.chars()
        invariant
            it.seq() == s@,
            v@ == it.seq().take(it.index()),
    {
        v.push(c);
    }
    v
}

/// Whether two strings hold the same characters.
pub fn same(a: &str, b: &str) -> (r: bool)
    ensures
        r == (a@ == b@),
{
    let x = to_chars(a);
    let y = to_chars(b);
    if x.len() != y.len() {
        return false;
    }
    let r = has_at(&x, 0, &y);
    proof {
        assert(x@.subrange(0, x@.len() as int) == x@);
    }
    r
}

/// Whether `pattern` occurs in `text` at position `at`.
pub fn has_at(text: &Vec<char>, at: usize, pattern: &Vec<char>) -> (r: bool)
    ensures
        r == occurs_at(text@, at as int, pattern@),
{
    if pattern.len() > text.len() || at > text.len() - pattern.len() {
        return false;
    }
    let mut k: usize = 0;
    while k < pattern.len()
        invariant
            k <= pattern.len(),
            at + pattern.len() <= text.len(),
            forall|j: int| 0 <= j < k ==> text@[at + j] == pattern@[j],
        decreases pattern.len() - k,
    {
        if text[at + k] != pattern[k] {
            proof {
                let part = text@.subrange(at as int, at + pattern.len());
                assert(part[k as int] == text@[at + k]);
            }
            return false;
        }
        k += 1;
    }
    proof {
        assert(text@.subrange(at as int, at + pattern.len()) =~= pattern@);
    }
    true
}

/// Unfolds [`replaced`] at position `at` of a longer text.
proof fn replaced_step(text: Seq<char>, at: int, pattern: Seq<char>, with: Seq<char>)
    requires
        0 <= at < text.len(),
        pattern.len() > 0,
    ensures
        occurs_at(text, at, pattern) ==> replaced(text.skip(at), pattern, with) == with + replaced(
            text.skip(at + pattern.len()),
            pattern,
            with,
        ),
        !occurs_at(text, at, pattern) ==> replaced(text.skip(at), pattern, with) == seq![text[at]]
            + replaced(text.skip(at + 1), pattern, with),
{
    let rest = text.skip(at);
    assert(rest.len() > 0);
    assert(rest[0] == text[at]);
    if at + pattern.len() <= text.len() {
        assert(rest.subrange(0, pattern.len() as int) =~= text.subrange(at, at + pattern.len()));
        assert(rest.skip(pattern.len() as int) =~= text.skip(at + pattern.len()));
    }
    assert(occurs_at(rest, 0, pattern) == occurs_at(text, at, pattern));
    assert(rest.skip(1) =~= text.skip(at + 1));
}

/// `text` with every occurrence of `pattern` replaced by `with`.
pub fn replace_all(text: &str, pattern: &str, with: &str) -> (r: String)
    ensures
        r@ == replaced(text@, pattern@, with@),
{
    let chars = to_chars(text);
    let pat = to_chars(pattern);
    if pat.len() == 0 {
        return String::from_str(text);
    }
    let mut out = String::new();
    let mut i: usize = 0;
    proof {
        assert(chars@.skip(0) =~= chars@);
        assert(out@ + replaced(chars@, pat@, with@) =~= replaced(chars@, pat@, with@));
    }
    while i < chars.len()
        invariant
            i <= chars.len(),
            chars@ == text@,
            pat@ == pattern@,
            pat.len() > 0,
            out@ + replaced(chars@.skip(i as int), pat@, with@) == replaced(
                chars@,
                pat@,
                with@,
            ),
        decreases chars.len() - i,
    {
        proof {
            replaced_step(chars@, i as int, pat@, with@);
        }
        let ghost before = out@;
        if has_at(&chars, i, &pat) {
            out.append(with);
            proof {
                let tail = replaced(chars@.skip(i + pat.len()), pat@, with@);
                assert((before + with@) + tail =~= before + (with@ + tail));
            }
            i += pat.len();
        } else {
            out.append(text.substring_char(i, i + 1));
            proof {
                let tail = replaced(chars@.skip(i + 1), pat@, with@);
                assert(text@.subrange(i as int, i + 1) =~= seq![chars@[i as int]]);
                assert((before + seq![chars@[i as int]]) + tail =~= before + (seq![
                    chars@[i as int],
                ] + tail));
            }
            i += 1;
        }
    }
    proof {
        assert(chars@.skip(i as int).len() == 0);
        assert(out@ + chars@.skip(i as int) =~= out@);
    }
    out
}

/// `head` followed by `tail`.
pub fn followed_by(head: &str, tail: &str) -> (r: String)
    ensures
        r@ == head@ + tail@,
{
    let mut r = String::from_str(head);
    r.append(tail);
    r
}

} // verus!
