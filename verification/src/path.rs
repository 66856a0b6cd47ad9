//! File paths, held as strings of their characters (Unix conventions).
use vstd::prelude::*;

use crate::text::{from_chars, opt_chars, push_str, to_chars};

verus! {

/// A Unix path is absolute when it starts at the root.
pub open spec fn is_absolute(p: Seq<char>) -> bool {
    p.len() > 0 && p[0] == '/'
}

/// `Path::join` on Unix: an absolute `p` replaces `base`; otherwise `p` is
/// appended, with a separator when `base` is non-empty and does not already
/// end in one.
pub open spec fn join(base: Seq<char>, p: Seq<char>) -> Seq<char> {
    if is_absolute(p) {
        p
    } else if base.len() == 0 || base.last() == '/' {
        base + p
    } else {
        base + seq!['/'] + p
    }
}

pub fn path_is_absolute(p: &str) -> (r: bool)
    ensures
        r == is_absolute(p@),
{
    let v = to_chars(p);
    v.len() > 0 && v[0] == '/'
}

/// Joins `p` onto `base`.
pub fn join_path(base: &str, p: &str) -> (r: String)
    ensures
        r@ == join(base@, p@),
{
    let bv = to_chars(base);
    if path_is_absolute(p) {
        let pv = to_chars(p);
        return from_chars(&pv);
    }
    let mut s = from_chars(&bv);
    if bv.len() > 0 && bv[bv.len() - 1] != '/' {
        s.push('/');
    }
    push_str(&mut s, p);
    s
}

/// The final component of a path, as `Path::file_name` gives it.
pub uninterp spec fn file_name_of(p: Seq<char>) -> Option<Seq<char>>;

/// Whether `p` is a single normal path component: not empty, no separator,
/// and neither `.` nor `..`.
pub open spec fn is_plain_name(p: Seq<char>) -> bool {
    &&& p.len() > 0
    &&& forall|i: int| 0 <= i < p.len() ==> p[i] != '/'
    &&& p != seq!['.']
    &&& p != seq!['.', '.']
}

/// Calls `Path::file_name`. The contract names its result; beside that it
/// states that a path made of one normal component is its own file name.
#[verifier::external_body]
pub(crate) fn file_name(p: &str) -> (r: Option<String>)
    ensures
        file_name_of(p@) == opt_chars(r),
        is_plain_name(p@) ==> opt_chars(r) == Some(p@),
{
    std::path::Path::new(p).file_name().map(|n| n.to_string_lossy().into_owned())
}

/// The stem of a path, its file name without the extension, as
/// `Path::file_stem` gives it.
pub uninterp spec fn file_stem_of(p: Seq<char>) -> Option<Seq<char>>;

/// Calls `Path::file_stem`. The contract names its result and states
/// nothing more of it.
#[verifier::external_body]
pub(crate) fn file_stem(p: &str) -> (r: Option<String>)
    ensures
        file_stem_of(p@) == opt_chars(r),
{
    std::path::Path::new(p).file_stem().map(|n| n.to_string_lossy().into_owned())
}

/// Index of the last `.` in `n`.
pub open spec fn last_dot(n: Seq<char>) -> Option<int>
    decreases n.len(),
{
    if n.len() == 0 {
        None
    } else if n.last() == '.' {
        Some(n.len() - 1)
    } else {
        last_dot(n.drop_last())
    }
}

/// `last_dot` finds the last `.` of a name, or reports that there is none.
pub proof fn lemma_last_dot(n: Seq<char>)
    ensures
        last_dot(n) matches Some(i) ==> 0 <= i < n.len() && n[i] == '.' && forall|k: int|
            i < k < n.len() ==> n[k] != '.',
        last_dot(n) is None ==> forall|k: int| 0 <= k < n.len() ==> n[k] != '.',
    decreases n.len(),
{
    if n.len() > 0 && n.last() != '.' {
        lemma_last_dot(n.drop_last());
        assert forall|k: int| 0 <= k < n.len() - 1 implies n[k] == n.drop_last()[k] by {}
    }
}

/// The extension of a file name (`Path::extension`): the part after the last
/// `.`, unless there is no `.` or the only one starts the name.
pub open spec fn extension_of_name(n: Seq<char>) -> Option<Seq<char>> {
    match last_dot(n) {
        Some(i) => if i == 0 {
            None
        } else {
            Some(n.subrange(i + 1, n.len() as int))
        },
        None => None,
    }
}

/// The extension of a path.
pub open spec fn extension_of(p: Seq<char>) -> Option<Seq<char>> {
    match file_name_of(p) {
        Some(n) => extension_of_name(n),
        None => None,
    }
}

/// Extension of a file name.
pub fn name_extension(n: &str) -> (r: Option<String>)
    ensures
        opt_chars(r) == extension_of_name(n@),
{
    let v = to_chars(n);
    let mut i = v.len();
    assert(v@.take(i as int) == v@);
    while i > 0 && v[i - 1] != '.'
        invariant
            i <= v@.len(),
            v@ == n@,
            last_dot(v@) == last_dot(v@.take(i as int)),
        decreases i,
    {
        assert(v@.take(i as int).drop_last() == v@.take(i - 1));
        i = i - 1;
    }
    if i == 0 {
        assert(v@.take(0) =~= Seq::<char>::empty());
        return None;
    }
    assert(last_dot(v@.take(i as int)) == Some(i - 1));
    if i == 1 {
        return None;
    }
    let mut e: Vec<char> = Vec::new();
    let mut k = i;
    while k < v.len()
        invariant
            i <= k <= v@.len(),
            e@ == v@.subrange(i as int, k as int),
        decreases v.len() - k,
    {
        e.push(v[k]);
        k = k + 1;
        assert(v@.subrange(i as int, k as int) == v@.subrange(i as int, (k - 1) as int).push(
            v@[k - 1],
        ));
    }
    Some(from_chars(&e))
}

/// Extension of a path (`Path::extension`).
pub fn path_extension(p: &str) -> (r: Option<String>)
    ensures
        opt_chars(r) == extension_of(p@),
{
    match file_name(p) {
        Some(n) => name_extension(n.as_str()),
        None => None,
    }
}

/// The parent of a path, as `Path::parent` gives it.
pub uninterp spec fn parent_of(p: Seq<char>) -> Option<Seq<char>>;

/// Calls `Path::parent`. The contract names its result and states nothing
/// more of it.
#[verifier::external_body]
pub(crate) fn parent(p: &str) -> (r: Option<String>)
    ensures
        parent_of(p@) == opt_chars(r),
{
    std::path::Path::new(p).parent().map(|d| d.to_string_lossy().into_owned())
}

/// The path that remains of `p` once the leading components `base` are
/// taken off, as `Path::strip_prefix` gives it.
pub uninterp spec fn strip_prefix_of(p: Seq<char>, base: Seq<char>) -> Option<Seq<char>>;

/// Calls `Path::strip_prefix`. The contract names its result and states
/// nothing more of it.
#[verifier::external_body]
pub(crate) fn strip_prefix(p: &str, base: &str) -> (r: Option<String>)
    ensures
        strip_prefix_of(p@, base@) == opt_chars(r),
{
    std::path::Path::new(p).strip_prefix(base).ok().map(|rest| rest.to_string_lossy().into_owned())
}

} // verus!
