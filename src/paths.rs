use vstd::prelude::*;
use vstd::string::{StrSliceExecFns, StringExecFns};

verus! {

/// `name` placed inside the directory `base`, with one separator between them.
pub open spec fn join(base: Seq<char>, name: Seq<char>) -> Seq<char> {
    if base.len() == 0 || base.last() == '/' {
        base + name
    } else {
        base + seq!['/'] + name
    }
}

/// `path` lies strictly inside the directory `base`: `base` is a prefix of
/// `path` that ends on a component boundary.
pub open spec fn is_under(path: Seq<char>, base: Seq<char>) -> bool {
    &&& path.len() > base.len()
    &&& path.subrange(0, base.len() as int) == base
    &&& (base.len() == 0 || base.last() == '/' || path[base.len() as int] == '/')
}

/// Joining a non-empty name onto a base gives a path inside that base.
pub proof fn lemma_join_is_under(base: Seq<char>, name: Seq<char>)
    requires
        name.len() > 0,
    ensures
        is_under(join(base, name), base),
{
    let p = join(base, name);
    assert(p.subrange(0, base.len() as int) =~= base);
}

/// A path inside a path inside `base` is inside `base`.
pub proof fn lemma_under_trans(path: Seq<char>, mid: Seq<char>, base: Seq<char>)
    requires
        is_under(path, mid),
        is_under(mid, base),
    ensures
        is_under(path, base),
{
    assert(path.subrange(0, mid.len() as int).subrange(0, base.len() as int)
        =~= path.subrange(0, base.len() as int));
    assert(path[base.len() as int] == mid[base.len() as int]);
}

/// Places `name` inside the directory `base`.
pub fn join_path(base: &str, name: &str) -> (r: String)
    ensures
        r@ == join(base@, name@),
{
    let n = base.unicode_len();
    let mut r = String::from_str(base);
    if n > 0 && base.get_char(n - 1) != '/' {
        let sep = "/";
        proof {
            reveal_strlit("/");
        }
        r.append(sep);
        assert(r@ == base@ + seq!['/']);
    }
    r.append(name);
    r
}

} // verus!
