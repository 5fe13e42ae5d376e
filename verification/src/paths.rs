//! Verified path text helpers: joining a workspace root with a relative
//! location, and taking the directory part of a configuration file's path.

use vstd::prelude::*;

verus! {

/// The path obtained by placing `rel` under `root`.
pub open spec fn joined_path(root: Seq<char>, rel: Seq<char>) -> Seq<char> {
    if root.len() == 0 {
        rel
    } else if root.last() == '/' {
        root + rel
    } else {
        root + "/"@ + rel
    }
}

/// Joins a root directory and a relative path with a separator.
pub fn join_path(root: &str, rel: &str) -> (r: String)
    ensures
        r@ == joined_path(root@, rel@),
{
    let n = root.unicode_len();
    if n == 0 {
        return rel.to_owned();
    }
    let mut s = root.to_owned();
    if root.get_char(n - 1) != '/' {
        s.append("/");
    }
    s.append(rel);
    s
}

/// Index of the last occurrence of `ch`, or -1 if it does not occur.
pub open spec fn index_of_last(s: Seq<char>, ch: char) -> int
    decreases s.len(),
{
    if s.len() == 0 {
        -1
    } else if s.last() == ch {
        s.len() - 1
    } else {
        index_of_last(s.drop_last(), ch)
    }
}

/// The directory part of a path: everything before the last separator, or the
/// empty string when the path has no directory part.
pub open spec fn parent_dir_of(path: Seq<char>) -> Seq<char> {
    if index_of_last(path, '/') < 0 {
        Seq::empty()
    } else {
        path.take(index_of_last(path, '/'))
    }
}

/// Returns the directory containing `path` (empty for a bare file name).
pub fn parent_dir(path: &str) -> (r: String)
    ensures
        r@ == parent_dir_of(path@),
{
    let n = path.unicode_len();
    proof {
        assert(path@.take(n as int) =~= path@);
    }
    let mut i: usize = n;
    while i > 0
        invariant
            i <= n,
            n == path@.len(),
            index_of_last(path@, '/') == index_of_last(path@.take(i as int), '/'),
        decreases i,
    {
        proof {
            assert(path@.take(i as int).drop_last() =~= path@.take(i - 1));
            assert(path@.take(i as int).last() == path@[i - 1]);
        }
        if path.get_char(i - 1) == '/' {
            proof {
                assert(index_of_last(path@.take(i as int), '/') == i - 1);
            }
            let r = path.substring_char(0, i - 1);
            proof {
                assert(path@.take(i - 1) =~= path@.subrange(0, i - 1));
            }
            return r.to_owned();
        }
        i = i - 1;
    }
    proof {
        assert(path@.take(0) =~= Seq::<char>::empty());
        assert(index_of_last(path@, '/') == index_of_last(path@.take(0), '/'));
        assert(index_of_last(path@.take(0), '/') == -1);
    }
    String::new()
}

} // verus!
