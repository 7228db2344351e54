//! Watch roots as text, and the rule that keeps watched trees from
//! overlapping.
//!
//! Paths are canonical: absolute, with `/` between their components and no
//! `.` or `..` among them. Separators at the end of a path do not count.

use vstd::prelude::*;
use vstd::string::*;

verus! {

/// The length of `path` without the separators at its end.
pub open spec fn trimmed_len(path: Seq<char>) -> nat
    decreases path.len(),
{
    if path.len() > 0 && path.last() == '/' {
        trimmed_len(path.drop_last())
    } else {
        path.len()
    }
}

/// `inner` is `outer` or lies in the tree below it: `outer`, without the
/// separators at its end, is the start of `inner` and ends where a component
/// of `inner` ends.
pub open spec fn within(inner: Seq<char>, outer: Seq<char>) -> bool {
    let o = trimmed_len(outer) as int;
    let i = trimmed_len(inner) as int;
    &&& o <= i
    &&& inner.take(o) == outer.take(o)
    &&& (o == i || inner[o] == '/')
}

/// The two texts name the same path: they differ at most in the separators
/// at their ends.
pub open spec fn same_path(a: Seq<char>, b: Seq<char>) -> bool {
    within(a, b) && within(b, a)
}

/// `inner` lies in the tree below `outer` and is not `outer` itself.
pub open spec fn strictly_within(inner: Seq<char>, outer: Seq<char>) -> bool {
    within(inner, outer) && !within(outer, inner)
}

/// The texts of a list of strings.
pub open spec fn texts(paths: Seq<String>) -> Seq<Seq<char>> {
    paths.map_values(|path: String| path@)
}

/// The path at `k` is no reason to drop the path at `j`: the path at `j`
/// does not lie strictly within it, and it is not an earlier mention of the
/// same path.
pub open spec fn spares(paths: Seq<Seq<char>>, j: int, k: int) -> bool {
    &&& !strictly_within(paths[j], paths[k])
    &&& !(k < j && same_path(paths[k], paths[j]))
}

/// The path at `j` is kept as a root: it lies strictly within no path of the
/// list and is the first mention of its path.
pub open spec fn keeps(paths: Seq<Seq<char>>, j: int) -> bool {
    forall|k: int| 0 <= k < paths.len() ==> spares(paths, j, k)
}

/// The roots kept among the first `n` paths of the list, in the list's order.
pub open spec fn roots_upto(paths: Seq<Seq<char>>, n: int) -> Seq<Seq<char>>
    decreases n,
{
    if n <= 0 {
        Seq::empty()
    } else if keeps(paths, n - 1) {
        roots_upto(paths, n - 1).push(paths[n - 1])
    } else {
        roots_upto(paths, n - 1)
    }
}

/// The roots kept of a list of paths: each path that lies strictly within no
/// other, once, in the order of first mention.
pub open spec fn roots(paths: Seq<Seq<char>>) -> Seq<Seq<char>> {
    roots_upto(paths, paths.len() as int)
}

/// Where `from` is the end of the root's text in `path`, the place where the
/// key starts: behind the separators that follow the root.
pub open spec fn key_start(path: Seq<char>, from: nat) -> nat
    decreases path.len() - from,
{
    if from < path.len() && path[from as int] == '/' {
        key_start(path, from + 1)
    } else {
        from
    }
}

/// The key of `path` relative to the root `base`: what follows the root and
/// its separators, up to the separators at the end of `path`.
pub open spec fn relative_key(path: Seq<char>, base: Seq<char>) -> Seq<char> {
    let start = key_start(path, trimmed_len(base)) as int;
    let end = trimmed_len(path) as int;
    if start <= end <= path.len() {
        path.subrange(start, end)
    } else {
        Seq::empty()
    }
}

/// What the length without the separators at the end is: nothing but
/// separators follows it, and no separator stands before it.
pub proof fn trimmed_len_is_exact(path: Seq<char>)
    ensures
        trimmed_len(path) <= path.len(),
        trimmed_len(path) > 0 ==> path[trimmed_len(path) - 1] != '/',
        forall|i: int| trimmed_len(path) <= i < path.len() ==> path[i] == '/',
    decreases path.len(),
{
    if path.len() > 0 && path.last() == '/' {
        let front = path.drop_last();
        trimmed_len_is_exact(front);
        assert forall|i: int| trimmed_len(path) <= i < path.len() implies path[i] == '/' by {
            if i < front.len() {
                assert(front[i] == path[i]);
            }
        }
        if trimmed_len(path) > 0 {
            assert(front[trimmed_len(path) - 1] == path[trimmed_len(path) - 1]);
        }
    }
}

/// Every path lies within itself.
pub proof fn within_is_reflexive(path: Seq<char>)
    ensures
        within(path, path),
{
}

/// A path within a path within a third lies within the third.
pub proof fn within_is_transitive(a: Seq<char>, b: Seq<char>, c: Seq<char>)
    requires
        within(a, b),
        within(b, c),
    ensures
        within(a, c),
{
    let la = trimmed_len(a) as int;
    let lb = trimmed_len(b) as int;
    let lc = trimmed_len(c) as int;
    trimmed_len_is_exact(a);
    trimmed_len_is_exact(b);
    trimmed_len_is_exact(c);
    assert forall|x: int| 0 <= x < lb implies a[x] == b[x] by {
        assert(a.take(lb)[x] == b.take(lb)[x]);
    }
    assert forall|x: int| 0 <= x < lc implies b[x] == c[x] by {
        assert(b.take(lc)[x] == c.take(lc)[x]);
    }
    assert(a.take(lc) =~= c.take(lc));
}

/// Two texts that lie within each other agree up to the separators at their
/// ends.
pub proof fn same_path_is_same_text(a: Seq<char>, b: Seq<char>)
    requires
        same_path(a, b),
    ensures
        trimmed_len(a) == trimmed_len(b),
        a.take(trimmed_len(a) as int) == b.take(trimmed_len(b) as int),
{
}

/// The length of `path` without the separators at its end, counted in
/// characters.
pub fn trim_len(path: &str) -> (n: usize)
    ensures
        n == trimmed_len(path@),
{
    let mut n: usize = path.unicode_len();
    let mut done = false;
    assert(path@.take(n as int) =~= path@);
    while n > 0 && !done
        invariant
            n <= path@.len(),
            trimmed_len(path@) == trimmed_len(path@.take(n as int)),
            done ==> n > 0 && path@[n - 1] != '/',
        decreases n + if done { 0int } else { 1int },
    {
        if path.get_char(n - 1) == '/' {
            assert(path@.take(n as int).last() == path@[n - 1]);
            assert(path@.take(n as int).drop_last() =~= path@.take(n - 1));
            n -= 1;
        } else {
            done = true;
        }
    }
    proof {
        if n > 0 {
            assert(path@.take(n as int).last() == path@[n - 1]);
        }
    }
    n
}

/// Whether `inner` is `outer` or lies in the tree below it.
pub fn starts_with(inner: &str, outer: &str) -> (inside: bool)
    ensures
        inside == within(inner@, outer@),
{
    let o = trim_len(outer);
    let i = trim_len(inner);
    proof {
        trimmed_len_is_exact(inner@);
        trimmed_len_is_exact(outer@);
    }
    if o > i {
        return false;
    }
    let mut j: usize = 0;
    while j < o
        invariant
            j <= o <= i,
            o == trimmed_len(outer@),
            i == trimmed_len(inner@),
            i <= inner@.len(),
            o <= outer@.len(),
            forall|x: int| 0 <= x < j ==> inner@[x] == outer@[x],
        decreases o - j,
    {
        if inner.get_char(j) != outer.get_char(j) {
            assert(inner@.take(o as int)[j as int] != outer@.take(o as int)[j as int]);
            return false;
        }
        j += 1;
    }
    assert(inner@.take(o as int) =~= outer@.take(o as int));
    if o == i {
        true
    } else {
        inner.get_char(o) == '/'
    }
}

/// Whether the path at `j` is kept as a root.
fn keeps_path(paths: &Vec<String>, j: usize) -> (keep: bool)
    requires
        j < paths@.len(),
    ensures
        keep == keeps(texts(paths@), j as int),
{
    let mut k: usize = 0;
    while k < paths.len()
        invariant
            k <= paths@.len(),
            j < paths@.len(),
            forall|x: int| 0 <= x < k ==> spares(texts(paths@), j as int, x),
        decreases paths@.len() - k,
    {
        let inside = starts_with(paths[j].as_str(), paths[k].as_str());
        let around = starts_with(paths[k].as_str(), paths[j].as_str());
        if inside && !around || k < j && inside && around {
            assert(!spares(texts(paths@), j as int, k as int));
            return false;
        }
        k += 1;
    }
    true
}

/// Reduces a list of canonical paths to the roots of the trees they name.
///
/// A path that lies in the tree below another path of the list is dropped,
/// and a path that is named more than once is kept once, so that no two of
/// the returned roots overlap. The roots come in the order of the list.
pub fn get_paths(paths: &Vec<String>) -> (kept: Vec<String>)
    ensures
        texts(kept@) == roots(texts(paths@)),
{
    let mut kept: Vec<String> = Vec::new();
    let mut j: usize = 0;
    assert(texts(kept@) =~= roots_upto(texts(paths@), 0));
    while j < paths.len()
        invariant
            j <= paths@.len(),
            texts(kept@) == roots_upto(texts(paths@), j as int),
        decreases paths@.len() - j,
    {
        if keeps_path(paths, j) {
            let ghost before = kept@;
            kept.push(paths[j].clone());
            assert(texts(kept@) =~= texts(before).push(paths@[j as int]@));
        }
        j += 1;
    }
    kept
}

/// The place in the list that the root at `i` among the first `n` paths was
/// taken from.
pub open spec fn origin(paths: Seq<Seq<char>>, n: int, i: int) -> int
    decreases n,
{
    if n <= 0 {
        0
    } else if keeps(paths, n - 1) && i == roots_upto(paths, n - 1).len() {
        n - 1
    } else {
        origin(paths, n - 1, i)
    }
}

/// Every root among the first `n` paths is a path of the list that is kept,
/// and the roots stand in the order of the list.
pub proof fn roots_come_from_the_list(paths: Seq<Seq<char>>, n: int, i: int)
    requires
        0 <= n <= paths.len(),
        0 <= i < roots_upto(paths, n).len(),
    ensures
        0 <= origin(paths, n, i) < n,
        keeps(paths, origin(paths, n, i)),
        roots_upto(paths, n)[i] == paths[origin(paths, n, i)],
        forall|h: int| 0 <= h < i ==> origin(paths, n, h) < origin(paths, n, i),
    decreases n,
{
    if n > 0 {
        if keeps(paths, n - 1) && i == roots_upto(paths, n - 1).len() {
            assert forall|h: int| 0 <= h < i implies origin(paths, n, h) < origin(paths, n, i) by {
                roots_come_from_the_list(paths, n - 1, h);
            }
        } else {
            roots_come_from_the_list(paths, n - 1, i);
            assert forall|h: int| 0 <= h < i implies origin(paths, n, h) < origin(paths, n, i) by {
                roots_come_from_the_list(paths, n - 1, h);
            }
        }
    }
}

/// A path of the list that is kept stands among the roots.
pub proof fn kept_path_is_a_root(paths: Seq<Seq<char>>, n: int, j: int)
    requires
        0 <= j < n <= paths.len(),
        keeps(paths, j),
    ensures
        roots_upto(paths, n).contains(paths[j]),
    decreases n,
{
    if j == n - 1 {
        assert(roots_upto(paths, n).last() == paths[j]);
    } else {
        kept_path_is_a_root(paths, n - 1, j);
        let before = roots_upto(paths, n - 1);
        let at = choose|i: int| 0 <= i < before.len() && before[i] == paths[j];
        assert(roots_upto(paths, n)[at] == paths[j]);
    }
}

/// The first place in the list, up to `j`, that names the same path as the
/// one at `j`.
pub open spec fn first_mention(paths: Seq<Seq<char>>, j: int, k: int) -> int
    decreases j - k,
{
    if k >= j || same_path(paths[k], paths[j]) {
        k
    } else {
        first_mention(paths, j, k + 1)
    }
}

proof fn first_mention_is_first(paths: Seq<Seq<char>>, j: int, k: int)
    requires
        0 <= k <= j < paths.len(),
        forall|h: int| 0 <= h < k ==> !same_path(paths[h], paths[j]),
    ensures
        k <= first_mention(paths, j, k) <= j,
        same_path(paths[first_mention(paths, j, k)], paths[j]),
        forall|h: int| 0 <= h < first_mention(paths, j, k) ==> !same_path(paths[h], paths[j]),
    decreases j - k,
{
    if k >= j || same_path(paths[k], paths[j]) {
        within_is_reflexive(paths[j]);
    } else {
        first_mention_is_first(paths, j, k + 1);
    }
}

/// No two watched roots overlap: of the roots kept of any list of paths, none
/// lies within another.
pub proof fn roots_do_not_overlap(paths: Seq<Seq<char>>, a: int, b: int)
    requires
        0 <= a < roots(paths).len(),
        0 <= b < roots(paths).len(),
        a != b,
    ensures
        !within(roots(paths)[a], roots(paths)[b]),
{
    let n = paths.len() as int;
    roots_come_from_the_list(paths, n, a);
    roots_come_from_the_list(paths, n, b);
    let ja = origin(paths, n, a);
    let jb = origin(paths, n, b);
    assert(spares(paths, ja, jb));
    assert(spares(paths, jb, ja));
    if within(paths[ja], paths[jb]) {
        assert(same_path(paths[ja], paths[jb]));
        assert(ja != jb);
    }
}

/// A path that lies strictly within another path of the list is not watched
/// on its own: no root names it.
pub proof fn inner_path_is_dropped(paths: Seq<Seq<char>>, inner: int, outer: int, r: int)
    requires
        0 <= inner < paths.len(),
        0 <= outer < paths.len(),
        strictly_within(paths[inner], paths[outer]),
        0 <= r < roots(paths).len(),
    ensures
        !same_path(roots(paths)[r], paths[inner]),
{
    let n = paths.len() as int;
    roots_come_from_the_list(paths, n, r);
    let j = origin(paths, n, r);
    assert(spares(paths, j, outer));
    if same_path(paths[j], paths[inner]) {
        within_is_transitive(paths[j], paths[inner], paths[outer]);
        if within(paths[outer], paths[j]) {
            within_is_transitive(paths[outer], paths[j], paths[inner]);
        }
    }
}

/// A path of the list that lies strictly within no other path of the list
/// is watched: one of the roots names it.
pub proof fn outer_path_is_kept(paths: Seq<Seq<char>>, j: int) -> (r: int)
    requires
        0 <= j < paths.len(),
        forall|k: int| 0 <= k < paths.len() ==> !strictly_within(paths[j], #[trigger] paths[k]),
    ensures
        0 <= r < roots(paths).len(),
        same_path(roots(paths)[r], paths[j]),
{
    let n = paths.len() as int;
    first_mention_is_first(paths, j, 0);
    let f = first_mention(paths, j, 0);
    assert forall|k: int| 0 <= k < paths.len() implies spares(paths, f, k) by {
        if strictly_within(paths[f], paths[k]) {
            within_is_transitive(paths[j], paths[f], paths[k]);
            assert(!strictly_within(paths[j], paths[k]));
            within_is_transitive(paths[k], paths[j], paths[f]);
        }
        if k < f && same_path(paths[k], paths[f]) {
            within_is_transitive(paths[k], paths[f], paths[j]);
            within_is_transitive(paths[j], paths[f], paths[k]);
        }
    }
    kept_path_is_a_root(paths, n, f);
    let kept = roots(paths);
    choose|i: int| 0 <= i < kept.len() && kept[i] == paths[f]
}

/// A path that lies strictly within another is longer than it, separators
/// at the end apart.
pub proof fn strictly_within_is_longer(inner: Seq<char>, outer: Seq<char>)
    requires
        strictly_within(inner, outer),
    ensures
        trimmed_len(outer) < trimmed_len(inner),
{
}

/// Follows the paths of the list that enclose the one at `k` outwards, to one
/// that lies strictly within no other.
proof fn outermost_around(paths: Seq<Seq<char>>, k: int) -> (top: int)
    requires
        0 <= k < paths.len(),
    ensures
        0 <= top < paths.len(),
        within(paths[k], paths[top]),
        forall|m: int| 0 <= m < paths.len() ==> !strictly_within(paths[top], #[trigger] paths[m]),
    decreases trimmed_len(paths[k]),
{
    if exists|m: int| 0 <= m < paths.len() && strictly_within(paths[k], #[trigger] paths[m]) {
        let m = choose|m: int| 0 <= m < paths.len() && strictly_within(paths[k], #[trigger] paths[m]);
        strictly_within_is_longer(paths[k], paths[m]);
        let top = outermost_around(paths, m);
        within_is_transitive(paths[k], paths[m], paths[top]);
        top
    } else {
        k
    }
}

/// No requested tree is lost: every path of the list lies within one of the
/// roots that are kept.
pub proof fn every_path_is_covered(paths: Seq<Seq<char>>, j: int) -> (r: int)
    requires
        0 <= j < paths.len(),
    ensures
        0 <= r < roots(paths).len(),
        within(paths[j], roots(paths)[r]),
{
    let top = outermost_around(paths, j);
    let r = outer_path_is_kept(paths, top);
    within_is_transitive(paths[j], paths[top], roots(paths)[r]);
    r
}

/// Two trees that hold the same path are nested: one root lies within the
/// other.
pub proof fn trees_with_a_common_path_are_nested(path: Seq<char>, a: Seq<char>, b: Seq<char>)
    requires
        within(path, a),
        within(path, b),
    ensures
        within(a, b) || within(b, a),
{
    let la = trimmed_len(a) as int;
    let lb = trimmed_len(b) as int;
    trimmed_len_is_exact(a);
    trimmed_len_is_exact(b);
    trimmed_len_is_exact(path);
    assert forall|x: int| 0 <= x < la implies a[x] == path[x] by {
        assert(a.take(la)[x] == path.take(la)[x]);
    }
    assert forall|x: int| 0 <= x < lb implies b[x] == path[x] by {
        assert(b.take(lb)[x] == path.take(lb)[x]);
    }
    if la <= lb {
        assert(b.take(la) =~= a.take(la));
    } else {
        assert(a.take(lb) =~= b.take(lb));
    }
}

/// No file is detected twice: a path lies in the tree of at most one of the
/// roots that are kept.
pub proof fn file_lies_below_one_root(paths: Seq<Seq<char>>, file: Seq<char>, a: int, b: int)
    requires
        0 <= a < roots(paths).len(),
        0 <= b < roots(paths).len(),
        within(file, roots(paths)[a]),
        within(file, roots(paths)[b]),
    ensures
        a == b,
{
    if a != b {
        trees_with_a_common_path_are_nested(file, roots(paths)[a], roots(paths)[b]);
        roots_do_not_overlap(paths, a, b);
        roots_do_not_overlap(paths, b, a);
    }
}

} // verus!
