//! Slash-joined path strings and the prefix ordering they induce.
//!
//! A path is modelled as its character sequence; `join` appends one
//! segment behind a `/` separator, with no normalization of either side.

use vstd::prelude::*;

verus! {

/// The character sequence of `a` followed by `/` followed by `b`.
pub open spec fn join(a: Seq<char>, b: Seq<char>) -> Seq<char> {
    a + "/"@ + b
}

/// `p` lies strictly below `root`: it extends `root` past a `/` separator.
pub open spec fn strictly_under(p: Seq<char>, root: Seq<char>) -> bool {
    &&& p.len() > root.len()
    &&& p.subrange(0, root.len() as int) == root
    &&& p[root.len() as int] == '/'
}

/// `p` is `root` itself or lies strictly below it.
pub open spec fn under(p: Seq<char>, root: Seq<char>) -> bool {
    p == root || strictly_under(p, root)
}

/// Joining a path onto `a` always lands strictly below `a`.
pub proof fn lemma_join_is_under(a: Seq<char>, b: Seq<char>)
    ensures
        strictly_under(join(a, b), a),
        join(a, b) != a,
{
    reveal_strlit("/");
    let j = join(a, b);
    assert(j.subrange(0, a.len() as int) =~= a);
    assert(j[a.len() as int] == '/');
}

/// Distinct suffixes joined onto the same path give distinct paths.
pub proof fn lemma_join_ne(a: Seq<char>, b1: Seq<char>, b2: Seq<char>)
    requires
        b1 != b2,
    ensures
        join(a, b1) != join(a, b2),
{
    reveal_strlit("/");
    if join(a, b1) == join(a, b2) {
        assert(join(a, b1).len() == a.len() + "/"@.len() + b1.len());
        assert(join(a, b2).len() == a.len() + "/"@.len() + b2.len());
        assert(b1.len() == b2.len());
        assert forall|i: int| 0 <= i < b1.len() implies b1[i] == b2[i] by {
            assert(join(a, b1)[a.len() + 1 + i] == b1[i]);
            assert(join(a, b2)[a.len() + 1 + i] == b2[i]);
        }
        assert(b1 =~= b2);
    }
}

/// Builds `a` `/` `b` as a `String`, exactly as `join` describes it.
pub fn join_path(a: &str, b: &str) -> (r: String)
    ensures
        r@ == join(a@, b@),
{
    let mut s: String = a.to_owned();
    s.append("/");
    s.append(b);
    s
}

} // verus!
