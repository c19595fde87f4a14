//! Paths as strings: a directory and the name of an entry in it.

use vstd::prelude::*;
use vstd::string::*;

verus! {

/// The path of the entry `name` in the directory `base`.
pub open spec fn joined(base: Seq<char>, name: Seq<char>) -> Seq<char> {
    base + seq!['/'] + name
}

/// The path of the entry `name` in the directory `base`.
pub fn join(base: &str, name: &str) -> (r: String)
    ensures
        r@ == joined(base@, name@),
{
    proof {
        reveal_strlit("/");
        assert("/"@ =~= seq!['/']);
    }
    let mut r = String::from_str(base);
    r.append("/");
    r.append(name);
    r
}

/// Two entries of one directory have the same path only if they have the same
/// name.
pub proof fn joined_tells_names_apart(base: Seq<char>, a: Seq<char>, b: Seq<char>)
    requires
        joined(base, a) == joined(base, b),
    ensures
        a == b,
{
    let pa = joined(base, a);
    let pb = joined(base, b);
    let at = base.len() + 1;
    assert(pa.len() == at + a.len());
    assert(pb.len() == at + b.len());
    assert forall|k: int| 0 <= k < a.len() implies a[k] == b[k] by {
        assert(pa[at + k] == a[k]);
        assert(pb[at + k] == b[k]);
    }
    assert(a =~= b);
}

} // verus!
