//! Release tags: their grammar, their canonical form, and resolved versions.
//!
//! A numbered release is tagged `v<major>.<minor>.<patch>`, the rolling
//! pre-release is tagged `nightly`, and a build pinned to a commit is named by
//! 7 to 40 lower-case hexadecimal digits. A user may type a numbered release
//! without the leading `v`, or with a capital `V`; the canonical form always
//! carries the lower-case `v`.

use crate::text::{followed_by, same, to_chars};
use vstd::prelude::*;
use vstd::string::*;

verus! {

/// How a release is classified.
#[derive(Clone, Copy, Debug, PartialEq, Eq, Structural)]
pub enum ReleaseKind {
    /// A numbered release.
    Stable,
    /// The rolling pre-release.
    Nightly,
    /// Any other ref, pinned to a commit.
    Commit,
}

/// Whether `c` is an ASCII decimal digit.
pub open spec fn is_digit(c: char) -> bool {
    '0' <= c && c <= '9'
}

/// Whether `c` is a lower-case hexadecimal digit.
pub open spec fn is_hex(c: char) -> bool {
    is_digit(c) || ('a' <= c && c <= 'f')
}

/// Whether positions `lo..hi` of `s` are a non-empty run of digits.
pub open spec fn digits_between(s: Seq<char>, lo: int, hi: int) -> bool {
    &&& 0 <= lo < hi <= s.len()
    &&& forall|k: int| lo <= k < hi ==> is_digit(#[trigger] s[k])
}

/// Whether `s` from `from` on reads as three runs of digits, with dots at
/// `first_dot` and `second_dot` between them.
pub open spec fn number_split(s: Seq<char>, from: int, first_dot: int, second_dot: int) -> bool {
    &&& digits_between(s, from, first_dot)
    &&& first_dot < s.len() && s[first_dot] == '.'
    &&& digits_between(s, first_dot + 1, second_dot)
    &&& second_dot < s.len() && s[second_dot] == '.'
    &&& digits_between(s, second_dot + 1, s.len() as int)
}

/// Whether `s` from position `from` to its end reads `<major>.<minor>.<patch>`.
pub open spec fn is_number_from(s: Seq<char>, from: int) -> bool {
    exists|i: int, j: int| #[trigger] number_split(s, from, i, j)
}

/// Whether `s` is the tag of a numbered release.
pub open spec fn is_release_tag(s: Seq<char>) -> bool {
    s.len() > 0 && s[0] == 'v' && is_number_from(s, 1)
}

/// The tag of the rolling pre-release.
pub open spec fn nightly_tag() -> Seq<char> {
    seq!['n', 'i', 'g', 'h', 't', 'l', 'y']
}

/// Whether `s` names a commit: 7 to 40 lower-case hexadecimal digits.
pub open spec fn is_commit_like(s: Seq<char>) -> bool {
    &&& 7 <= s.len() <= 40
    &&& forall|k: int| 0 <= k < s.len() ==> is_hex(#[trigger] s[k])
}

/// The canonical form of a token.
///
/// A bare version number gains the leading `v`, a capital `V` before a
/// version number becomes `v`, and every other token stands as typed.
pub open spec fn normalized(s: Seq<char>) -> Seq<char> {
    if is_number_from(s, 0) {
        seq!['v'] + s
    } else if s.len() > 0 && s[0] == 'V' && is_number_from(s, 1) {
        seq!['v'] + s.skip(1)
    } else {
        s
    }
}

/// Whether `s` is its own canonical form.
pub open spec fn is_canonical(s: Seq<char>) -> bool {
    normalized(s) == s
}

/// The kind that the tag itself tells, where it tells one.
pub open spec fn recognized(tag: Seq<char>) -> Option<ReleaseKind> {
    if is_release_tag(tag) {
        Some(ReleaseKind::Stable)
    } else if tag == nightly_tag() {
        Some(ReleaseKind::Nightly)
    } else {
        None
    }
}

/// The kind of an installed tag: what the tag tells, and a commit otherwise.
pub open spec fn kind_of(tag: Seq<char>) -> ReleaseKind {
    match recognized(tag) {
        Some(kind) => kind,
        None => ReleaseKind::Commit,
    }
}

/// A run of digits that is followed by a character other than a digit ends
/// where the longest run from the same start ends.
proof fn run_ends_at_stop(s: Seq<char>, lo: int, hi: int, end: int)
    requires
        digits_between(s, lo, hi),
        hi == s.len() || !is_digit(s[hi]),
        lo <= end <= s.len(),
        forall|k: int| lo <= k < end ==> is_digit(#[trigger] s[k]),
        end < s.len() ==> !is_digit(s[end]),
    ensures
        end == hi,
{
    if end < hi {
        assert(is_digit(s[end]));
    } else if end > hi {
        assert(is_digit(s[hi]));
    }
}

/// A number that is moved keeps being one: the grammar looks at no position
/// before `from`.
pub proof fn number_shifts(s: Seq<char>, from: int, t: Seq<char>, to: int)
    requires
        0 <= from <= s.len(),
        0 <= to <= t.len(),
        s.skip(from) == t.skip(to),
    ensures
        is_number_from(s, from) == is_number_from(t, to),
{
    let a = s.skip(from);
    let b = t.skip(to);
    assert(a.len() == s.len() - from);
    assert(b.len() == t.len() - to);
    assert forall|k: int| from <= k < s.len() implies s[k] == t[k - from + to] by {
        assert(a[k - from] == s[k]);
        assert(b[k - from] == t[k - from + to]);
    }
    if is_number_from(s, from) {
        let (i, j) = choose|i: int, j: int| #[trigger] number_split(s, from, i, j);
        assert(number_split(t, to, i - from + to, j - from + to)) by {
            assert forall|k: int| to <= k < t.len() implies t[k] == s[k - to + from] by {}
        }
    }
    if is_number_from(t, to) {
        let (i, j) = choose|i: int, j: int| #[trigger] number_split(t, to, i, j);
        assert(number_split(s, from, i - to + from, j - to + from));
    }
}

/// Normalizing twice changes nothing more, and what normalizing changes
/// becomes the tag of a numbered release.
pub proof fn normalized_is_canonical(s: Seq<char>)
    ensures
        is_canonical(normalized(s)),
        normalized(s) != s ==> is_release_tag(normalized(s)),
{
    let t = normalized(s);
    if t != s {
        assert(t[0] == 'v');
        assert forall|i: int, j: int| !#[trigger] number_split(t, 0, i, j) by {
            if number_split(t, 0, i, j) {
                assert(is_digit(t[0]));
            }
        }
        if is_number_from(s, 0) {
            assert(t.skip(1) =~= s.skip(0));
            number_shifts(t, 1, s, 0);
        } else {
            assert(t.skip(1) =~= s.skip(1));
            number_shifts(t, 1, s, 1);
        }
    }
}

/// A release tag, the nightly tag and a commit name are canonical as they
/// stand.
pub proof fn tags_are_canonical(s: Seq<char>)
    requires
        is_release_tag(s) || s == nightly_tag() || is_commit_like(s),
    ensures
        is_canonical(s),
{
    if s.len() > 0 && !is_digit(s[0]) {
        assert forall|i: int, j: int| !#[trigger] number_split(s, 0, i, j) by {
            if number_split(s, 0, i, j) {
                assert(is_digit(s[0]));
            }
        }
    }
    if is_commit_like(s) && !is_release_tag(s) && s != nightly_tag() {
        assert forall|i: int, j: int| !#[trigger] number_split(s, 0, i, j) by {
            if number_split(s, 0, i, j) {
                assert(is_hex(s[i]));
            }
        }
        assert(is_hex(s[0]));
    }
}

/// The end of the longest run of digits in `s` that starts at `from`.
fn digit_run(s: &Vec<char>, from: usize) -> (end: usize)
    requires
        from <= s.len(),
    ensures
        from <= end <= s.len(),
        forall|k: int| from <= k < end ==> is_digit(#[trigger] s@[k]),
        end < s.len() ==> !is_digit(s@[end as int]),
{
    let mut end = from;
    while end < s.len() && '0' <= s[end] && s[end] <= '9'
        invariant
            from <= end <= s.len(),
            forall|k: int| from <= k < end ==> is_digit(#[trigger] s@[k]),
        decreases s.len() - end,
    {
        end += 1;
    }
    end
}

/// Whether `s` from position `from` to its end reads `<major>.<minor>.<patch>`.
pub fn number_from(s: &Vec<char>, from: usize) -> (r: bool)
    ensures
        r == is_number_from(s@, from as int),
{
    if from >= s.len() {
        return false;
    }
    let i = digit_run(s, from);
    if i == from || i >= s.len() || s[i] != '.' {
        proof {
            assert forall|a: int, b: int| !#[trigger] number_split(s@, from as int, a, b) by {
                if number_split(s@, from as int, a, b) {
                    run_ends_at_stop(s@, from as int, a, i as int);
                }
            }
        }
        return false;
    }
    let j = digit_run(s, i + 1);
    if j == i + 1 || j >= s.len() || s[j] != '.' {
        proof {
            assert forall|a: int, b: int| !#[trigger] number_split(s@, from as int, a, b) by {
                if number_split(s@, from as int, a, b) {
                    run_ends_at_stop(s@, from as int, a, i as int);
                    run_ends_at_stop(s@, i + 1, b, j as int);
                }
            }
        }
        return false;
    }
    let end = digit_run(s, j + 1);
    if end == j + 1 || end < s.len() {
        proof {
            assert forall|a: int, b: int| !#[trigger] number_split(s@, from as int, a, b) by {
                if number_split(s@, from as int, a, b) {
                    run_ends_at_stop(s@, from as int, a, i as int);
                    run_ends_at_stop(s@, i + 1, b, j as int);
                    run_ends_at_stop(s@, j + 1, s@.len() as int, end as int);
                }
            }
        }
        return false;
    }
    proof {
        assert(number_split(s@, from as int, i as int, j as int));
    }
    true
}

/// Whether `tag` names a commit.
pub fn commit_like(tag: &str) -> (r: bool)
    ensures
        r == is_commit_like(tag@),
{
    let s = to_chars(tag);
    if s.len() < 7 || s.len() > 40 {
        return false;
    }
    let mut k: usize = 0;
    while k < s.len()
        invariant
            k <= s.len(),
            s@ == tag@,
            7 <= s.len() <= 40,
            forall|j: int| 0 <= j < k ==> is_hex(#[trigger] s@[j]),
        decreases s.len() - k,
    {
        let c = s[k];
        if !(('0' <= c && c <= '9') || ('a' <= c && c <= 'f')) {
            assert(!is_hex(s@[k as int]));
            return false;
        }
        k += 1;
    }
    true
}

/// The canonical form of `token`.
pub fn normalize(token: &str) -> (r: String)
    ensures
        r@ == normalized(token@),
        is_canonical(r@),
{
    proof {
        reveal_strlit("v");
        assert("v"@ =~= seq!['v']);
        normalized_is_canonical(token@);
    }
    let s = to_chars(token);
    if number_from(&s, 0) {
        followed_by("v", token)
    } else if s.len() > 0 && s[0] == 'V' && number_from(&s, 1) {
        proof {
            assert(token@.subrange(1, s@.len() as int) =~= token@.skip(1));
        }
        followed_by("v", token.substring_char(1, s.len()))
    } else {
        String::from_str(token)
    }
}

/// The kind that `tag` itself tells, where it tells one.
pub fn recognize(tag: &str) -> (r: Option<ReleaseKind>)
    ensures
        r == recognized(tag@),
{
    let s = to_chars(tag);
    if s.len() > 0 && s[0] == 'v' && number_from(&s, 1) {
        return Some(ReleaseKind::Stable);
    }
    proof {
        reveal_strlit("nightly");
        assert("nightly"@ =~= nightly_tag());
    }
    if same(tag, "nightly") {
        Some(ReleaseKind::Nightly)
    } else {
        None
    }
}

/// The kind of an installed tag.
pub fn classify(tag: &str) -> (r: ReleaseKind)
    ensures
        r == kind_of(tag@),
{
    match recognize(tag) {
        Some(kind) => kind,
        None => ReleaseKind::Commit,
    }
}

/// What a [`Version`] is, as a value.
pub struct VersionView {
    /// The canonical tag.
    pub tag: Seq<char>,
    /// The release kind.
    pub kind: ReleaseKind,
}

/// One concrete release: a canonical tag and its kind.
///
/// Only resolution makes one, so a `Version` always names what a resolver
/// found. Two versions are equal exactly if their tags are equal.
#[derive(Debug)]
pub struct Version {
    tag: String,
    kind: ReleaseKind,
}

impl View for Version {
    type V = VersionView;

    closed spec fn view(&self) -> VersionView {
        VersionView { tag: self.tag@, kind: self.kind }
    }
}

impl Clone for Version {
    fn clone(&self) -> (r: Version)
        ensures
            r@ == self@,
    {
        proof {
            use_type_invariant(self);
        }
        Version { tag: self.tag.clone(), kind: self.kind }
    }
}

impl PartialEq for Version {
    fn eq(&self, other: &Version) -> (r: bool) {
        same(self.tag.as_str(), other.tag.as_str())
    }
}

impl Eq for Version {

}

impl vstd::std_specs::cmp::PartialEqSpecImpl for Version {
    open spec fn obeys_eq_spec() -> bool {
        true
    }

    open spec fn eq_spec(&self, other: &Version) -> bool {
        self@.tag == other@.tag
    }
}

impl Version {
    #[verifier::type_invariant]
    spec fn canonical(self) -> bool {
        is_canonical(self.tag@)
    }

    /// The version with this tag and kind.
    pub(crate) fn new(tag: String, kind: ReleaseKind) -> (r: Version)
        requires
            is_canonical(tag@),
        ensures
            r@ == (VersionView { tag: tag@, kind }),
    {
        Version { tag, kind }
    }

    /// The canonical tag.
    pub fn tag(&self) -> (r: &str)
        ensures
            r@ == self@.tag,
            is_canonical(r@),
    {
        proof {
            use_type_invariant(self);
        }
        self.tag.as_str()
    }

    /// The release kind.
    pub fn kind(&self) -> (r: ReleaseKind)
        ensures
            r == self@.kind,
    {
        self.kind
    }
}

} // verus!
