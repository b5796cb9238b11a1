//! Paths as character sequences, and the joining of path components.

use vstd::prelude::*;

verus! {

/// The characters of the path obtained by joining a relative component
/// onto a base path: one `/` separates the two unless the base is empty
/// or already ends in `/`.
pub open spec fn joined(base: Seq<char>, rel: Seq<char>) -> Seq<char> {
    if base.len() == 0 {
        rel
    } else if base.last() == '/' {
        base + rel
    } else {
        base + seq!['/'] + rel
    }
}

/// Joins a relative component onto a base path with a `/` separator.
pub fn join_path(base: &str, rel: &str) -> (r: String)
    ensures
        r@ == joined(base@, rel@),
{
    let n: usize = base.unicode_len();
    if n == 0 {
        return rel.to_owned();
    }
    let mut r: String = base.to_owned();
    let last: char = base.get_char(n - 1);
    if last != '/' {
        r.append("/");
        proof {
            reveal_strlit("/");
            assert(base@ + "/"@ =~= base@ + seq!['/']);
        }
    }
    r.append(rel);
    proof {
        if last != '/' {
            assert(base@ + seq!['/'] + rel@ =~= (base@ + seq!['/']) + rel@);
        }
    }
    r
}

} // verus!
