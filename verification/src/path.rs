//! Slash-separated paths, as a remote shell reads them: final components,
//! parent directories, and joining.

use crate::text::{chars_of, opt_text};
use vstd::prelude::*;

verus! {

/// `s` without any trailing `/`.
pub open spec fn strip_slashes(s: Seq<char>) -> Seq<char>
    decreases s.len(),
{
    if s.len() > 0 && s.last() == '/' {
        strip_slashes(s.drop_last())
    } else {
        s
    }
}

/// Index of the last `/` in `s`, or `-1` if there is none.
pub open spec fn last_slash(s: Seq<char>) -> int
    decreases s.len(),
{
    if s.len() == 0 {
        -1
    } else if s.last() == '/' {
        s.len() - 1
    } else {
        last_slash(s.drop_last())
    }
}

/// Final component of a slash-separated path: what follows the last `/`
/// once trailing slashes are dropped.
pub open spec fn base_name(path: Seq<char>) -> Seq<char> {
    let t = strip_slashes(path);
    t.subrange(last_slash(t) + 1, t.len() as int)
}

/// Directory that holds the final component of a slash-separated path.
///
/// A path without any component (empty, or made of slashes only) has no
/// parent. A single relative component has the empty parent, and a single
/// component under the root has the parent `/`.
pub open spec fn parent_dir(path: Seq<char>) -> Option<Seq<char>> {
    let t = strip_slashes(path);
    if t.len() == 0 {
        None
    } else if last_slash(t) < 0 {
        Some(Seq::<char>::empty())
    } else {
        let p = strip_slashes(t.subrange(0, last_slash(t)));
        if p.len() == 0 {
            Some(seq!['/'])
        } else {
            Some(p)
        }
    }
}

/// `base` extended by the relative path `part`, with one `/` between them
/// unless `base` is empty or already ends in one.
pub open spec fn joined(base: Seq<char>, part: Seq<char>) -> Seq<char> {
    if base.len() == 0 || base.last() == '/' {
        base + part
    } else {
        base + seq!['/'] + part
    }
}

/// `strip_slashes` removes exactly the trailing run of slashes.
pub proof fn lemma_strip_slashes(s: Seq<char>, k: int)
    requires
        0 <= k <= s.len(),
        forall|i: int| k <= i < s.len() ==> s[i] == '/',
        k > 0 ==> s[k - 1] != '/',
    ensures
        strip_slashes(s) == s.subrange(0, k),
    decreases s.len() - k,
{
    if k == s.len() {
        assert(s.subrange(0, k) =~= s);
    } else {
        let t = s.drop_last();
        lemma_strip_slashes(t, k);
        assert(t.subrange(0, k) =~= s.subrange(0, k));
    }
}

/// `last_slash` is the greatest index that holds a slash.
pub proof fn lemma_last_slash(s: Seq<char>, k: int)
    requires
        -1 <= k < s.len(),
        forall|i: int| k < i < s.len() ==> s[i] != '/',
        k >= 0 ==> s[k] == '/',
    ensures
        last_slash(s) == k,
    decreases s.len(),
{
    if s.len() > 0 && k < s.len() - 1 {
        lemma_last_slash(s.drop_last(), k);
    }
}

/// Length of `v[..end]` once trailing slashes are dropped.
fn stripped_len(v: &Vec<char>, end: usize) -> (k: usize)
    requires
        end <= v.len(),
    ensures
        k <= end,
        strip_slashes(v@.subrange(0, end as int)) == v@.subrange(0, k as int),
{
    let mut k: usize = end;
    while k > 0 && v[k - 1] == '/'
        invariant
            k <= end <= v.len(),
            forall|i: int| k <= i < end ==> v@[i] == '/',
        decreases k,
    {
        k -= 1;
    }
    proof {
        let s = v@.subrange(0, end as int);
        lemma_strip_slashes(s, k as int);
        assert(s.subrange(0, k as int) =~= v@.subrange(0, k as int));
    }
    k
}

/// One past the index of the last slash in `v[..end]`, or zero without one.
fn after_last_slash(v: &Vec<char>, end: usize) -> (k: usize)
    requires
        end <= v.len(),
    ensures
        k <= end,
        k == last_slash(v@.subrange(0, end as int)) + 1,
{
    let mut k: usize = end;
    while k > 0 && v[k - 1] != '/'
        invariant
            k <= end <= v.len(),
            forall|i: int| k <= i < end ==> v@[i] != '/',
        decreases k,
    {
        k -= 1;
    }
    proof {
        lemma_last_slash(v@.subrange(0, end as int), k as int - 1);
    }
    k
}

/// Final component of a slash-separated path.
pub fn file_name(path: &str) -> (r: String)
    ensures
        r@ == base_name(path@),
{
    let v = chars_of(path);
    let end = stripped_len(&v, v.len());
    let start = after_last_slash(&v, end);
    proof {
        assert(v@.subrange(0, v.len() as int) =~= v@);
        assert(v@.subrange(0, end as int).subrange(start as int, end as int) =~= v@.subrange(
            start as int,
            end as int,
        ));
    }
    String::from_str(path.substring_char(start, end))
}

/// Directory that holds the final component of a slash-separated path, if
/// the path has a component at all.
pub fn parent_of(path: &str) -> (r: Option<String>)
    ensures
        opt_text(r) == parent_dir(path@),
{
    let v = chars_of(path);
    let end = stripped_len(&v, v.len());
    proof {
        assert(v@.subrange(0, v.len() as int) =~= v@);
    }
    if end == 0 {
        return None;
    }
    let after = after_last_slash(&v, end);
    if after == 0 {
        return Some(String::new());
    }
    let cut = stripped_len(&v, after - 1);
    proof {
        let t = v@.subrange(0, end as int);
        assert(t.subrange(0, after - 1) =~= v@.subrange(0, after - 1));
    }
    if cut == 0 {
        proof {
            reveal_strlit("/");
        }
        let r = String::from_str("/");
        assert(r@ =~= seq!['/']);
        Some(r)
    } else {
        Some(String::from_str(path.substring_char(0, cut)))
    }
}

/// Extends the directory `base` by the relative path `part`.
pub fn join_path(base: &str, part: &str) -> (r: String)
    ensures
        r@ == joined(base@, part@),
{
    let v = chars_of(base);
    let mut r = String::from_str(base);
    if v.len() > 0 && v[v.len() - 1] != '/' {
        proof {
            reveal_strlit("/");
        }
        r.append("/");
        assert("/"@ =~= seq!['/']);
    }
    r.append(part);
    r
}

} // verus!
