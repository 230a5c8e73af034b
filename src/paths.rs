//! Paths with `/` as separator: joining a relative path to a base, and
//! taking the parent directory.

use vstd::prelude::*;

verus! {

/// `rel` taken relative to `base` with `/` as separator: an absolute `rel`
/// replaces `base`, and a separator is added only where `base` lacks one.
pub open spec fn joined(base: Seq<char>, rel: Seq<char>) -> Seq<char> {
    if rel.len() > 0 && rel[0] == '/' {
        rel
    } else if base.len() == 0 || base.last() == '/' {
        base + rel
    } else {
        base + seq!['/'] + rel
    }
}

/// `s` without the `/` chars at its end.
pub open spec fn strip_trailing_slashes(s: Seq<char>) -> Seq<char>
    decreases s.len(),
{
    if s.len() > 0 && s.last() == '/' {
        strip_trailing_slashes(s.drop_last())
    } else {
        s
    }
}

/// The chars of `s` before its last `/`, or `None` when it has none.
pub open spec fn before_last_slash(s: Seq<char>) -> Option<Seq<char>>
    decreases s.len(),
{
    if s.len() == 0 {
        None
    } else if s.last() == '/' {
        Some(s.drop_last())
    } else {
        before_last_slash(s.drop_last())
    }
}

/// The directory that holds `p`: `p` without its last component. The root
/// and the empty path have none; a single relative component has the empty
/// path as its parent.
pub open spec fn parent_of(p: Seq<char>) -> Option<Seq<char>> {
    let q = strip_trailing_slashes(p);
    if q.len() == 0 {
        None
    } else {
        match before_last_slash(q) {
            None => Some(Seq::empty()),
            Some(pre) => if strip_trailing_slashes(pre).len() == 0 && q[0] == '/' {
                Some(seq!['/'])
            } else {
                Some(strip_trailing_slashes(pre))
            },
        }
    }
}

/// `rel` resolved against `base`, as a path join does.
pub fn join_path(base: &str, rel: &str) -> (r: String)
    ensures
        r@ == joined(base@, rel@),
{
    let rel_len = rel.unicode_len();
    let base_len = base.unicode_len();
    if rel_len > 0 && rel.get_char(0) == '/' {
        String::from_str(rel)
    } else if base_len == 0 || base.get_char(base_len - 1) == '/' {
        let mut p = String::from_str(base);
        p.append(rel);
        p
    } else {
        let mut p = String::from_str(base);
        proof {
            reveal_strlit("/");
        }
        p.append("/");
        p.append(rel);
        p
    }
}

/// The length of `s@.take(end)` once its trailing `/` chars are gone.
fn strip_slashes_len(s: &str, end: usize) -> (k: usize)
    requires
        end <= s@.len(),
    ensures
        k <= end,
        s@.take(k as int) == strip_trailing_slashes(s@.take(end as int)),
{
    let mut k: usize = end;
    while k > 0 && s.get_char(k - 1) == '/'
        invariant
            k <= end <= s@.len(),
            strip_trailing_slashes(s@.take(end as int)) == strip_trailing_slashes(s@.take(k as int)),
        decreases k,
    {
        assert(s@.take(k as int).drop_last() =~= s@.take(k - 1));
        k = k - 1;
    }
    k
}

/// The index of the last `/` in `s@.take(end)`, if any.
fn last_slash(s: &str, end: usize) -> (r: Option<usize>)
    requires
        end <= s@.len(),
    ensures
        match r {
            None => before_last_slash(s@.take(end as int)) is None,
            Some(i) => i < end && before_last_slash(s@.take(end as int)) == Some(s@.take(i as int)),
        },
{
    let mut k: usize = end;
    while k > 0 && s.get_char(k - 1) != '/'
        invariant
            k <= end <= s@.len(),
            before_last_slash(s@.take(end as int)) == before_last_slash(s@.take(k as int)),
        decreases k,
    {
        assert(s@.take(k as int).drop_last() =~= s@.take(k - 1));
        k = k - 1;
    }
    if k == 0 {
        None
    } else {
        assert(s@.take(k as int).drop_last() =~= s@.take(k - 1));
        Some(k - 1)
    }
}

/// The parent directory of `p`, or `None` for the root or the empty path.
pub fn parent_dir(p: &str) -> (r: Option<String>)
    ensures
        match r {
            Some(d) => parent_of(p@) == Some(d@),
            None => parent_of(p@) is None,
        },
{
    let n = p.unicode_len();
    assert(p@.take(n as int) =~= p@);
    let q = strip_slashes_len(p, n);
    if q == 0 {
        return None;
    }
    match last_slash(p, q) {
        None => Some(String::new()),
        Some(i) => {
            assert(p@.take(q as int).take(i as int) =~= p@.take(i as int));
            let k = strip_slashes_len(p, i);
            if k == 0 && p.get_char(0) == '/' {
                proof {
                    reveal_strlit("/");
                }
                Some(String::from_str("/"))
            } else {
                Some(String::from_str(p.substring_char(0, k)))
            }
        },
    }
}

} // verus!
