//! Path arithmetic on paths held as strings, with `/` as the separator.
use vstd::prelude::*;

verus! {

/// The path `comp` joined onto `base`: an absolute `comp` replaces `base`,
/// an empty `base` yields `comp`, and a separator is inserted unless `base`
/// already ends with one.
pub open spec fn join_spec(base: Seq<char>, comp: Seq<char>) -> Seq<char> {
    if comp.len() > 0 && comp[0] == '/' {
        comp
    } else if base.len() == 0 {
        comp
    } else if base.last() == '/' {
        base + comp
    } else {
        base + seq!['/'] + comp
    }
}

/// Joins the component `comp` onto the path `base`.
pub fn join(base: &str, comp: &str) -> (r: String)
    ensures
        r@ == join_spec(base@, comp@),
{
    let n = base.unicode_len();
    if comp.unicode_len() > 0 && comp.get_char(0) == '/' {
        return String::from_str(comp);
    }
    if n == 0 {
        return String::from_str(comp);
    }
    let mut r = String::from_str(base);
    if base.get_char(n - 1) != '/' {
        proof {
            reveal_strlit("/");
        }
        r.append("/");
    }
    r.append(comp);
    r
}

/// The view of an optional string.
pub open spec fn opt_view(o: Option<&str>) -> Option<Seq<char>> {
    match o {
        Some(s) => Some(s@),
        None => None,
    }
}

/// The view of an optional owned string.
pub open spec fn opt_string_view(o: Option<String>) -> Option<Seq<char>> {
    match o {
        Some(s) => Some(s@),
        None => None,
    }
}

/// The index of the last `/` in `p`, or -1 if there is none.
pub open spec fn last_slash(p: Seq<char>) -> int
    decreases p.len(),
{
    if p.len() == 0 {
        -1
    } else if p.last() == '/' {
        p.len() - 1
    } else {
        last_slash(p.drop_last())
    }
}

/// The parent of a directory: the path up to its last separator, `/` for a
/// directory just below the root, and none for the root itself or a path
/// without a separator.
pub open spec fn parent_spec(p: Seq<char>) -> Option<Seq<char>> {
    let i = last_slash(p);
    if i < 0 {
        None
    } else if i == 0 {
        if p.len() == 1 {
            None
        } else {
            Some(seq!['/'])
        }
    } else {
        Some(p.subrange(0, i))
    }
}

proof fn lemma_last_slash_bounds(p: Seq<char>)
    ensures
        -1 <= last_slash(p) < p.len(),
        last_slash(p) >= 0 ==> p[last_slash(p)] == '/',
        forall|k: int| last_slash(p) < k < p.len() ==> p[k] != '/',
    decreases p.len(),
{
    if p.len() > 0 && p.last() != '/' {
        let q = p.drop_last();
        lemma_last_slash_bounds(q);
        assert forall|k: int| last_slash(p) < k < p.len() implies p[k] != '/' by {
            if k < q.len() {
                assert(p[k] == q[k]);
            }
        }
    }
}

/// A parent is strictly shorter than its child, so walking up ends.
pub proof fn lemma_parent_shorter(p: Seq<char>)
    ensures
        parent_spec(p) matches Some(q) ==> q.len() < p.len(),
{
    lemma_last_slash_bounds(p);
}

/// The parent directory of `p`.
pub fn parent_dir(p: &str) -> (r: Option<String>)
    ensures
        opt_string_view(r) == parent_spec(p@),
{
    let n = p.unicode_len();
    let mut i: usize = n;
    assert(p@.subrange(0, n as int) == p@);
    while i > 0 && p.get_char(i - 1) != '/'
        invariant
            n == p@.len(),
            i <= n,
            last_slash(p@) == last_slash(p@.subrange(0, i as int)),
        decreases i,
    {
        assert(p@.subrange(0, i as int).drop_last() == p@.subrange(0, i - 1));
        i = i - 1;
    }
    proof {
        assert(p@.subrange(0, n as int) == p@);
        if i > 0 {
            assert(p@.subrange(0, i as int).last() == '/');
        }
    }
    if i == 0 {
        None
    } else if i == 1 {
        if n == 1 {
            None
        } else {
            proof {
                reveal_strlit("/");
            }
            assert("/"@ =~= seq!['/']);
            Some(String::from_str("/"))
        }
    } else {
        Some(String::from_str(p.substring_char(0, i - 1)))
    }
}

} // verus!
