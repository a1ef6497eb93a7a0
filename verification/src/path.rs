//! Paths as byte strings: the canonical form, containment in a root, and the
//! joins from which the guard builds what is handed to the file system.

use crate::text::{
    find_from, trim_end, trim_start, trimmed_end, trimmed_start, append, copy_range, DOT, SLASH,
};
use vstd::prelude::*;

verus! {

/// Whether a path component may start at `j`: `j` is one past a slash.
pub open spec fn after_slash(p: Seq<u8>, j: int) -> bool {
    0 < j <= p.len() && p[j - 1] == SLASH
}

/// Whether the component that starts at `j` is empty, `.` or `..`.
pub open spec fn odd_component(p: Seq<u8>, j: int) -> bool {
    let n = p.len() as int;
    ||| j >= n
    ||| p[j] == SLASH
    ||| (p[j] == DOT && (j + 1 == n || p[j + 1] == SLASH))
    ||| (p[j] == DOT && j + 1 < n && p[j + 1] == DOT && (j + 2 == n || p[j + 2] == SLASH))
}

/// The form in which the file system names a path once every link, `.` and
/// `..` is resolved: absolute, no empty component, no `.` or `..`, no slash
/// at the end. The root directory alone is a single slash.
pub open spec fn is_canonical(p: Seq<u8>) -> bool {
    &&& p.len() > 0
    &&& p[0] == SLASH
    &&& (p.len() == 1 || forall|j: int| after_slash(p, j) ==> !odd_component(p, j))
}

/// Whether `p` is `root` or lies below it, component by component.
pub open spec fn within(root: Seq<u8>, p: Seq<u8>) -> bool {
    &&& root.len() <= p.len()
    &&& p.take(root.len() as int) == root
    &&& (p.len() == root.len() || root.len() == 1 || p[root.len() as int] == SLASH)
}

/// What is left of `p` below `root`: empty for the root itself.
pub open spec fn below(root: Seq<u8>, p: Seq<u8>) -> Seq<u8> {
    if p.len() <= root.len() {
        Seq::empty()
    } else if root.len() == 1 {
        p.skip(1)
    } else {
        p.skip(root.len() as int + 1)
    }
}

/// `base` followed by `rel`, with one slash between them.
pub open spec fn join(base: Seq<u8>, rel: Seq<u8>) -> Seq<u8> {
    if rel.len() == 0 {
        base
    } else if base.len() > 0 && base.last() == SLASH {
        base + rel
    } else {
        base + seq![SLASH] + rel
    }
}

/// The path that a client's `target` stands for before links are resolved.
/// A target that begins with a slash counts from `root`, any other from the
/// working directory `pwd` below it; slashes at the end of the target are
/// dropped.
pub open spec fn candidate(root: Seq<u8>, pwd: Seq<u8>, target: Seq<u8>) -> Seq<u8> {
    let t = trim_end(target, SLASH);
    if target.len() > 0 && target[0] == SLASH {
        join(root, trim_start(t, SLASH))
    } else {
        join(join(root, pwd), t)
    }
}

/// The index of the last `b` in `s`, or -1.
pub open spec fn rfind(s: Seq<u8>, b: u8) -> int
    decreases s.len(),
{
    if s.len() == 0 {
        -1
    } else if s.last() == b {
        s.len() - 1
    } else {
        rfind(s.drop_last(), b)
    }
}

/// The directory part of `p`: all before its last slash.
pub open spec fn parent_of(p: Seq<u8>) -> Seq<u8> {
    let k = rfind(p, SLASH);
    if k <= 0 {
        seq![SLASH]
    } else {
        p.take(k)
    }
}

/// The last component of `p`: all after its last slash.
pub open spec fn leaf_of(p: Seq<u8>) -> Seq<u8> {
    p.skip(rfind(p, SLASH) + 1)
}

/// Whether `name` can name a new entry of a directory.
pub open spec fn is_plain_name(name: Seq<u8>) -> bool {
    &&& name.len() > 0
    &&& find_from(name, SLASH, 0) == name.len()
    &&& name != seq![DOT]
    &&& name != seq![DOT, DOT]
}

/// Where `rfind` points there is a `b`, and none after it.
pub proof fn lemma_rfind(s: Seq<u8>, b: u8)
    ensures
        -1 <= rfind(s, b) < s.len(),
        rfind(s, b) >= 0 ==> s[rfind(s, b)] == b,
        forall|j: int| rfind(s, b) < j < s.len() ==> s[j] != b,
    decreases s.len(),
{
    if s.len() > 0 && s.last() != b {
        lemma_rfind(s.drop_last(), b);
        assert forall|j: int| rfind(s, b) < j < s.len() implies s[j] != b by {
            if j < s.len() - 1 {
                assert(s.drop_last()[j] == s[j]);
            }
        }
    }
}

/// Whether the path is in canonical form.
pub fn check_canonical(p: &[u8]) -> (yes: bool)
    ensures
        yes == is_canonical(p@),
{
    let n = p.len();
    if n == 0 || p[0] != SLASH {
        return false;
    }
    if n == 1 {
        return true;
    }
    let mut i: usize = 0;
    while i < n
        invariant
            n == p@.len(),
            n > 1,
            i <= n,
            forall|k: int| after_slash(p@, k) && k <= i ==> !odd_component(p@, k),
        decreases n - i,
    {
        if p[i] == SLASH {
            let j = i + 1;
            let odd = j >= n || p[j] == SLASH || (p[j] == DOT && (j + 1 == n || p[j + 1] == SLASH))
                || (p[j] == DOT && j + 1 < n && p[j + 1] == DOT && (j + 2 == n || p[j + 2]
                == SLASH));
            if odd {
                assert(after_slash(p@, j as int) && odd_component(p@, j as int));
                return false;
            }
        }
        i += 1;
    }
    true
}

/// Whether `p` is `root` or lies below it.
pub fn is_within(root: &[u8], p: &[u8]) -> (yes: bool)
    ensures
        yes == within(root@, p@),
{
    if !crate::text::starts_with(p, root) {
        return false;
    }
    p.len() == root.len() || root.len() == 1 || p[root.len()] == SLASH
}

/// What is left of `p` below `root`.
pub fn relative_to(root: &[u8], p: &[u8]) -> (out: Vec<u8>)
    requires
        root@.len() < usize::MAX,
    ensures
        out@ == below(root@, p@),
{
    if p.len() <= root.len() {
        Vec::new()
    } else if root.len() == 1 {
        let out = copy_range(p, 1, p.len());
        out
    } else {
        let out = copy_range(p, root.len() + 1, p.len());
        out
    }
}

/// `base` and `rel` with one slash between them.
pub fn join_paths(base: &[u8], rel: &[u8]) -> (out: Vec<u8>)
    ensures
        out@ == join(base@, rel@),
{
    let mut out: Vec<u8> = Vec::new();
    append(&mut out, base);
    if rel.len() > 0 {
        if !(base.len() > 0 && base[base.len() - 1] == SLASH) {
            out.push(SLASH);
        }
        append(&mut out, rel);
    }
    assert(out@ =~= join(base@, rel@));
    out
}

/// The path that `target` stands for, seen from `pwd` below `root`.
pub fn make_candidate(root: &[u8], pwd: &[u8], target: &[u8]) -> (out: Vec<u8>)
    ensures
        out@ == candidate(root@, pwd@, target@),
{
    let end = trimmed_end(target, SLASH);
    let t = copy_range(target, 0, end);
    assert(t@ =~= trim_end(target@, SLASH));
    if target.len() > 0 && target[0] == SLASH {
        let start = trimmed_start(t.as_slice(), SLASH);
        let rest = copy_range(t.as_slice(), start, t.len());
        assert(rest@ =~= trim_start(t@, SLASH));
        join_paths(root, rest.as_slice())
    } else {
        let here = join_paths(root, pwd);
        join_paths(here.as_slice(), t.as_slice())
    }
}

/// The index of the last `b` in `s`, if there is one.
pub fn last_index_of(s: &[u8], b: u8) -> (at: Option<usize>)
    ensures
        match at {
            Some(k) => k == rfind(s@, b) && k < s@.len(),
            None => rfind(s@, b) == -1,
        },
{
    let mut i: usize = s.len();
    assert(s@.take(i as int) =~= s@);
    while i > 0
        invariant
            i <= s@.len(),
            rfind(s@, b) == rfind(s@.take(i as int), b),
        decreases i,
    {
        if s[i - 1] == b {
            return Some(i - 1);
        }
        assert(s@.take(i as int).drop_last() =~= s@.take(i as int - 1));
        i -= 1;
    }
    None
}

/// The directory part of a path.
pub fn parent_path(p: &[u8]) -> (out: Vec<u8>)
    ensures
        out@ == parent_of(p@),
{
    proof {
        lemma_rfind(p@, SLASH);
    }
    match last_index_of(p, SLASH) {
        Some(k) => {
            if k == 0 {
                let mut out: Vec<u8> = Vec::new();
                out.push(SLASH);
                assert(out@ =~= seq![SLASH]);
                out
            } else {
                let out = copy_range(p, 0, k);
                out
            }
        },
        None => {
            let mut out: Vec<u8> = Vec::new();
            out.push(SLASH);
            assert(out@ =~= seq![SLASH]);
            out
        },
    }
}

/// The last component of a path.
pub fn leaf_name(p: &[u8]) -> (out: Vec<u8>)
    ensures
        out@ == leaf_of(p@),
{
    proof {
        lemma_rfind(p@, SLASH);
    }
    let n = p.len();
    match last_index_of(p, SLASH) {
        Some(k) => {
            assert(k < n);
            let out = copy_range(p, k + 1, n);
            out
        },
        None => {
            let out = copy_range(p, 0, p.len());
            out
        },
    }
}

/// Whether `name` can name a new entry of a directory.
pub fn check_plain_name(name: &[u8]) -> (yes: bool)
    ensures
        yes == is_plain_name(name@),
{
    let n = name.len();
    if n == 0 {
        return false;
    }
    if crate::text::index_of(name, SLASH) != n {
        return false;
    }
    if n == 1 && name[0] == DOT {
        assert(name@ =~= seq![DOT]);
        return false;
    }
    if n == 2 && name[0] == DOT && name[1] == DOT {
        assert(name@ =~= seq![DOT, DOT]);
        return false;
    }
    assert(name@ != seq![DOT]) by {
        if name@ == seq![DOT] {
            assert(name@[0] == DOT);
        }
    }
    assert(name@ != seq![DOT, DOT]) by {
        if name@ == seq![DOT, DOT] {
            assert(name@[0] == DOT && name@[1] == DOT);
        }
    }
    true
}

/// A canonical path within a canonical root is the root joined with what
/// lies below it.
pub proof fn lemma_below_joins_back(root: Seq<u8>, p: Seq<u8>)
    requires
        is_canonical(root),
        is_canonical(p),
        within(root, p),
    ensures
        join(root, below(root, p)) == p,
{
    let rel = below(root, p);
    if p.len() == root.len() {
        assert(p.take(root.len() as int) =~= p);
    } else if root.len() == 1 {
        assert(root =~= seq![SLASH]);
        assert(root + rel =~= p);
    } else {
        let n = root.len() as int;
        assert(after_slash(root, n) ==> !odd_component(root, n));
        assert(root.last() != SLASH);
        assert(p.len() > n + 1) by {
            assert(after_slash(p, n + 1));
            assert(!odd_component(p, n + 1));
        }
        assert(root + seq![SLASH] + rel =~= p) by {
            assert forall|i: int| 0 <= i < p.len() implies (root + seq![SLASH] + rel)[i]
                == p[i] by {
                if i < n {
                    assert(p.take(n)[i] == root[i]);
                }
            }
        }
    }
}

/// A plain name joined to a canonical directory is canonical and lies
/// within that directory.
pub proof fn lemma_join_plain(dir: Seq<u8>, leaf: Seq<u8>)
    requires
        is_canonical(dir),
        is_plain_name(leaf),
    ensures
        is_canonical(join(dir, leaf)),
        within(dir, join(dir, leaf)),
        join(dir, leaf).len() > dir.len(),
{
    let d = join(dir, leaf);
    let n = dir.len() as int;
    crate::text::lemma_find_from(leaf, SLASH, 0);
    assert(forall|k: int| 0 <= k < leaf.len() ==> leaf[k] != SLASH);
    assert(!(leaf.len() == 1 && leaf[0] == DOT)) by {
        if leaf.len() == 1 && leaf[0] == DOT {
            assert(leaf =~= seq![DOT]);
        }
    }
    assert(!(leaf.len() == 2 && leaf[0] == DOT && leaf[1] == DOT)) by {
        if leaf.len() == 2 && leaf[0] == DOT && leaf[1] == DOT {
            assert(leaf =~= seq![DOT, DOT]);
        }
    }
    if n == 1 {
        assert(d =~= dir + leaf);
        assert(d.take(n) =~= dir);
        assert forall|j: int| after_slash(d, j) implies !odd_component(d, j) by {
            if j > 1 {
                assert(d[j - 1] == leaf[j - 2]);
            }
        }
    } else {
        assert(after_slash(dir, n) ==> !odd_component(dir, n));
        assert(dir.last() != SLASH);
        assert(d =~= dir + seq![SLASH] + leaf);
        assert(d.take(n) =~= dir);
        assert forall|j: int| after_slash(d, j) implies !odd_component(d, j) by {
            if j <= n {
                assert(d[j - 1] == dir[j - 1]);
                assert(after_slash(dir, j));
                assert(!odd_component(dir, j));
                assert(j < n);
                assert(d[j] == dir[j]);
                if j + 1 < n {
                    assert(d[j + 1] == dir[j + 1]);
                }
                if j + 2 < n {
                    assert(d[j + 2] == dir[j + 2]);
                }
            } else if j > n + 1 {
                assert(d[j - 1] == leaf[j - 2 - n]);
            } else {
                assert(d[j] == leaf[0]);
                if leaf.len() > 1 {
                    assert(d[j + 1] == leaf[1]);
                }
                if leaf.len() > 2 {
                    assert(d[j + 2] == leaf[2]);
                }
            }
        }
    }
}

/// What lies within a directory lies within whatever that directory lies
/// within.
pub proof fn lemma_within_within(root: Seq<u8>, dir: Seq<u8>, p: Seq<u8>)
    requires
        is_canonical(root),
        is_canonical(dir),
        within(root, dir),
        within(dir, p),
    ensures
        within(root, p),
{
    let r = root.len() as int;
    let n = dir.len() as int;
    assert(p.take(r) =~= root) by {
        assert forall|i: int| 0 <= i < r implies p.take(r)[i] == root[i] by {
            assert(p.take(n)[i] == dir[i]);
            assert(dir.take(r)[i] == root[i]);
        }
    }
    if p.len() > r && r > 1 {
        if n == r {
            assert(p[r] == SLASH);
        } else {
            assert(p.take(n)[r] == dir[r]);
        }
    }
}

} // verus!
