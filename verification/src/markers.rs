//! Marker-file accounting for build artifacts.
//!
//! Every artifact moved into the output tree leaves a zero-byte marker in
//! the state tree, at the same relative path with the marker suffix
//! appended. The marker set is the authoritative record of the artifacts
//! attributable to the most recent build. Before a build, the clean step
//! removes every recorded artifact and its marker, and sweeps directories
//! that may thereby have emptied, children first. After a build, the
//! harvest step creates one marker per artifact and moves the artifact
//! into place.
//!
//! Relative paths are component lists; the filesystem walks and the
//! removals themselves are carried out by the unverified front end, which
//! follows the plans computed here.

use vstd::prelude::*;
use vstd::string::{StrSliceExecFns, StringExecFns};

use crate::text::{ends_with_seq, lemma_deep_view_index, seq_match_at};

verus! {

/// The suffix that distinguishes marker files.
pub open spec fn marker_suffix() -> Seq<char> {
    ".buildsys_marker"@
}

/// The marker suffix, executably.
pub fn marker_suffix_str() -> (s: &'static str)
    ensures
        s@ == marker_suffix(),
{
    ".buildsys_marker"
}

/// A file name that records an artifact: the artifact's name with the
/// suffix appended.
pub open spec fn is_marker_name(name: Seq<char>) -> bool {
    name.len() > marker_suffix().len() && ends_with_seq(name, marker_suffix())
}

/// The artifact name a marker stands for.
pub open spec fn strip_marker_name(name: Seq<char>) -> Seq<char> {
    name.subrange(0, name.len() - marker_suffix().len())
}

/// The marker name for an artifact.
pub open spec fn mark_name(name: Seq<char>) -> Seq<char> {
    name + marker_suffix()
}

/// A relative path, as the sequence of its component names.
pub open spec fn wf_file_path(p: Seq<Seq<char>>) -> bool {
    p.len() > 0 && forall|i: int| 0 <= i < p.len() ==> (#[trigger] p[i]).len() > 0
}

/// A relative path naming a marker file.
pub open spec fn is_marker_path(p: Seq<Seq<char>>) -> bool {
    p.len() > 0 && is_marker_name(p.last())
}

/// The artifact path a marker path stands for.
pub open spec fn strip_marker_path(p: Seq<Seq<char>>) -> Seq<Seq<char>> {
    p.drop_last().push(strip_marker_name(p.last()))
}

/// The marker path for an artifact path.
pub open spec fn mark_path(p: Seq<Seq<char>>) -> Seq<Seq<char>> {
    p.drop_last().push(mark_name(p.last()))
}

/// Marking an artifact path yields a marker path that stands for exactly
/// that artifact.
pub proof fn lemma_mark_round_trip(p: Seq<Seq<char>>)
    requires
        p.len() > 0,
        p.last().len() > 0,
    ensures
        is_marker_path(mark_path(p)),
        strip_marker_path(mark_path(p)) == p,
{
    let n = p.last();
    let m = mark_name(n);
    assert(m.subrange(m.len() - marker_suffix().len(), m.len() as int) =~= marker_suffix());
    assert(is_marker_name(m));
    assert(strip_marker_name(m) =~= n);
    assert(mark_path(p).drop_last() =~= p.drop_last());
    assert(strip_marker_path(mark_path(p)) =~= p);
}

/// Whether a file name is a marker name, executably.
pub fn is_marker_file_name(name: &str) -> (b: bool)
    ensures
        b == is_marker_name(name@),
{
    let n = name.unicode_len();
    let suffix = marker_suffix_str();
    let suffix_len = suffix.unicode_len();
    if n <= suffix_len {
        return false;
    }
    seq_match_at(name, n, n - suffix_len, suffix, suffix_len)
}

/// The marker name for an artifact name, executably.
pub fn mark_file_name(name: &str) -> (r: String)
    ensures
        r@ == mark_name(name@),
{
    let mut s = String::from_str(name);
    s.append(marker_suffix_str());
    s
}

/// The artifact name a marker stands for, executably.
pub fn strip_marker_file_name(name: &str) -> (r: String)
    requires
        is_marker_name(name@),
    ensures
        r@ == strip_marker_name(name@),
{
    let n = name.unicode_len();
    let suffix_len = marker_suffix_str().unicode_len();
    let t = name.substring_char(0, n - suffix_len);
    String::from_str(t)
}

/// Copies a path.
fn clone_path(p: &Vec<String>) -> (r: Vec<String>)
    ensures
        r.deep_view() == p.deep_view(),
{
    let mut r: Vec<String> = Vec::new();
    let mut i: usize = 0;
    while i < p.len()
        invariant
            i <= p@.len(),
            r@.len() == i,
            r.deep_view() == p.deep_view().subrange(0, i as int),
        decreases p@.len() - i,
    {
        let ghost r0 = r@;
        let c = p[i].clone();
        r.push(c);
        proof {
            assert(r@ == r0.push(c));
            lemma_deep_view_index(&r);
            lemma_deep_view_index(p);
            assert(r.deep_view() =~~= p.deep_view().subrange(0, i + 1 as int));
        }
        i += 1;
    }
    proof {
        assert(p.deep_view().subrange(0, p.deep_view().len() as int) =~= p.deep_view());
    }
    r
}

/// Copies the first `k` components of a path.
fn prefix_path(p: &Vec<String>, k: usize) -> (r: Vec<String>)
    requires
        k <= p@.len(),
    ensures
        r.deep_view() == p.deep_view().subrange(0, k as int),
        r@.len() == k,
{
    let mut r: Vec<String> = Vec::new();
    let mut i: usize = 0;
    while i < k
        invariant
            i <= k <= p@.len(),
            r@.len() == i,
            r.deep_view() == p.deep_view().subrange(0, i as int),
        decreases k - i,
    {
        let ghost r0 = r@;
        let c = p[i].clone();
        r.push(c);
        proof {
            assert(r@ == r0.push(c));
            lemma_deep_view_index(&r);
            lemma_deep_view_index(p);
            assert(r.deep_view() =~~= p.deep_view().subrange(0, i + 1 as int));
        }
        i += 1;
    }
    r
}

/// Whether two paths hold the same components.
fn path_eq(a: &Vec<String>, b: &Vec<String>) -> (eq: bool)
    ensures
        eq == (a.deep_view() == b.deep_view()),
{
    proof {
        lemma_deep_view_index(a);
        lemma_deep_view_index(b);
    }
    if a.len() != b.len() {
        proof {
            assert(a.deep_view().len() != b.deep_view().len());
        }
        return false;
    }
    let mut i: usize = 0;
    while i < a.len()
        invariant
            a@.len() == b@.len(),
            i <= a@.len(),
            forall|k: int| 0 <= k < i ==> a.deep_view()[k] == b.deep_view()[k],
        decreases a@.len() - i,
    {
        if !a[i].eq(&b[i]) {
            proof {
                lemma_deep_view_index(a);
                lemma_deep_view_index(b);
                assert(a.deep_view()[i as int] != b.deep_view()[i as int]);
            }
            return false;
        }
        proof {
            lemma_deep_view_index(a);
            lemma_deep_view_index(b);
            assert(a.deep_view()[i as int] == b.deep_view()[i as int]);
        }
        i += 1;
    }
    proof {
        assert(a.deep_view() =~= b.deep_view());
    }
    true
}

/// `d` occurs in `list`.
pub open spec fn path_in(list: Seq<Seq<Seq<char>>>, d: Seq<Seq<char>>) -> bool {
    exists|j: int| 0 <= j < list.len() && list[j] == d
}

/// `d` is a directory strictly between the root and the file `f`.
pub open spec fn is_rel_ancestor(d: Seq<Seq<char>>, f: Seq<Seq<char>>) -> bool {
    0 < d.len() < f.len() && d == f.subrange(0, d.len() as int)
}

/// `d` is a directory strictly between the root and some file of `files`.
pub open spec fn ancestor_of_some(d: Seq<Seq<char>>, files: Seq<Seq<Seq<char>>>) -> bool {
    exists|i: int| 0 <= i < files.len() && is_rel_ancestor(d, #[trigger] files[i])
}

/// Paths ordered by non-increasing depth.
pub open spec fn sorted_by_depth(list: Seq<Seq<Seq<char>>>) -> bool {
    forall|i: int, j: int| 0 <= i < j < list.len() ==> (#[trigger] list[i]).len() >= (
    #[trigger] list[j]).len()
}

/// No path occurs twice.
pub open spec fn distinct_paths(list: Seq<Seq<Seq<char>>>) -> bool {
    forall|i: int, j: int| 0 <= i < j < list.len() ==> #[trigger] list[i] != #[trigger] list[j]
}

/// In a depth-sorted, duplicate-free list, no directory precedes one of
/// its own subdirectories: removals can proceed in list order, children
/// first.
pub proof fn lemma_sorted_children_first(list: Seq<Seq<Seq<char>>>, i: int, j: int)
    requires
        sorted_by_depth(list),
        distinct_paths(list),
        0 <= i < j < list.len(),
    ensures
        !is_rel_ancestor(list[i], list[j]),
{
}

/// Whether `p` occurs in `list`, executably.
fn contains_path(list: &Vec<Vec<String>>, p: &Vec<String>) -> (b: bool)
    ensures
        b == path_in(list.deep_view(), p.deep_view()),
{
    proof {
        lemma_deep_view_index(list);
    }
    let mut i: usize = 0;
    while i < list.len()
        invariant
            i <= list@.len(),
            forall|j: int| 0 <= j < i ==> list.deep_view()[j] != p.deep_view(),
        decreases list@.len() - i,
    {
        if path_eq(&list[i], p) {
            proof {
                lemma_deep_view_index(list);
                assert(list.deep_view()[i as int] == p.deep_view());
            }
            return true;
        }
        proof {
            lemma_deep_view_index(list);
        }
        i += 1;
    }
    false
}

/// Inserts `p` into a depth-sorted list, keeping it sorted.
fn insert_by_depth(list: &mut Vec<Vec<String>>, p: Vec<String>)
    requires
        sorted_by_depth(old(list).deep_view()),
        distinct_paths(old(list).deep_view()),
        !path_in(old(list).deep_view(), p.deep_view()),
    ensures
        sorted_by_depth(final(list).deep_view()),
        distinct_paths(final(list).deep_view()),
        final(list).deep_view().len() == old(list).deep_view().len() + 1,
        forall|d: Seq<Seq<char>>|
            path_in(final(list).deep_view(), d) <==> (path_in(old(list).deep_view(), d) || d
                == p.deep_view()),
{
    let ghost olds_v = list@;
    let ghost olds = list.deep_view();
    proof {
        lemma_deep_view_index(list);
    }
    let mut idx: usize = 0;
    while idx < list.len() && list[idx].len() >= p.len()
        invariant
            idx <= list@.len(),
            list@ == olds_v,
            list.deep_view() == olds,
            forall|k: int| 0 <= k < idx ==> (#[trigger] olds[k]).len() >= p.deep_view().len(),
        decreases list@.len() - idx,
    {
        proof {
            lemma_deep_view_index(list);
            lemma_deep_view_index(&list[idx as int]);
            lemma_deep_view_index(&p);
            assert(olds[idx as int].len() == list@[idx as int]@.len());
        }
        idx += 1;
    }
    proof {
        lemma_deep_view_index(list);
        lemma_deep_view_index(&p);
        if idx < list@.len() {
            assert(list@[idx as int]@.len() < p@.len());
            assert(olds[idx as int].len() < p.deep_view().len());
        }
    }
    list.insert(idx, p);
    proof {
        lemma_deep_view_index(list);
        let new = list.deep_view();
        let pi = idx as int;
        assert(list@ == olds_v.insert(pi, p));
        assert(forall|k: int| 0 <= k < pi ==> list@[k] == olds_v[k]);
        assert(list@[pi] == p);
        assert(forall|k: int| pi < k < list@.len() ==> list@[k] == olds_v[k - 1]);
        assert(forall|k: int| 0 <= k < pi ==> #[trigger] new[k] == olds[k]);
        assert(new[pi] == p.deep_view());
        assert(forall|k: int| pi < k < new.len() ==> #[trigger] new[k] == olds[k - 1]);
        assert forall|d: Seq<Seq<char>>|
            path_in(new, d) implies (path_in(olds, d) || d == p.deep_view()) by {
            let j = choose|j: int| 0 <= j < new.len() && new[j] == d;
            if j < pi {
                assert(olds[j] == d);
            } else if j > pi {
                assert(olds[j - 1] == d);
            }
        }
        assert forall|d: Seq<Seq<char>>|
            (path_in(olds, d) || d == p.deep_view()) implies path_in(new, d) by {
            if path_in(olds, d) {
                let j = choose|j: int| 0 <= j < olds.len() && olds[j] == d;
                if j < pi {
                    assert(new[j] == d);
                } else {
                    assert(new[j + 1] == d);
                }
            } else {
                assert(new[pi] == d);
            }
        }
        assert forall|i: int, j: int| 0 <= i < j < new.len() implies (#[trigger] new[i]).len() >= (
        #[trigger] new[j]).len() by {
            if j < pi {
                assert(olds[i].len() >= olds[j].len());
            } else if i < pi && j == pi {
                assert(new[i] == olds[i]);
            } else if i < pi && j > pi {
                assert(olds[i].len() >= olds[j - 1].len());
            } else if i == pi && j > pi {
                assert(new[j] == olds[j - 1]);
                if olds[j - 1].len() > p.deep_view().len() {
                    assert(olds[j - 1].len() <= olds[pi].len());
                }
            } else {
                assert(olds[i - 1].len() >= olds[j - 1].len());
            }
        }
        assert forall|i: int, j: int| 0 <= i < j < new.len() implies #[trigger] new[i]
            != #[trigger] new[j] by {
            if i < pi && j < pi {
                assert(new[i] == olds[i] && new[j] == olds[j]);
            } else if i < pi && j == pi {
                if new[i] == new[j] {
                    assert(olds[i] == p.deep_view());
                    assert(path_in(olds, p.deep_view()));
                }
            } else if i < pi && j > pi {
                assert(new[i] == olds[i] && new[j] == olds[j - 1]);
            } else if i == pi {
                if new[i] == new[j] {
                    assert(olds[j - 1] == p.deep_view());
                    assert(path_in(olds, p.deep_view()));
                }
            } else {
                assert(new[i] == olds[i - 1] && new[j] == olds[j - 1]);
            }
        }
    }
}

/// Collects every directory strictly between a root and one of `files`,
/// without duplicates, deepest first, so that removing empty directories
/// in order empties chains from the bottom up.
fn collect_dirs(files: &Vec<Vec<String>>) -> (dirs: Vec<Vec<String>>)
    ensures
        sorted_by_depth(dirs.deep_view()),
        distinct_paths(dirs.deep_view()),
        forall|d: Seq<Seq<char>>|
            path_in(dirs.deep_view(), d) <==> ancestor_of_some(d, files.deep_view()),
{
    let mut dirs: Vec<Vec<String>> = Vec::new();
    let mut i: usize = 0;
    while i < files.len()
        invariant
            i <= files@.len(),
            sorted_by_depth(dirs.deep_view()),
            distinct_paths(dirs.deep_view()),
            forall|d: Seq<Seq<char>>|
                path_in(dirs.deep_view(), d) <==> ancestor_of_some(
                    d,
                    files.deep_view().subrange(0, i as int),
                ),
        decreases files@.len() - i,
    {
        let ghost fv = files.deep_view()[i as int];
        proof {
            lemma_deep_view_index(files);
            lemma_deep_view_index(&files[i as int]);
            assert(fv == files@[i as int].deep_view());
            assert(fv.len() == files@[i as int]@.len());
        }
        let f = &files[i];
        let flen = f.len();
        let mut k: usize = 1;
        while k < flen
            invariant
                i < files@.len(),
                f == files@[i as int],
                flen == f@.len(),
                fv == files.deep_view()[i as int],
                fv.len() == flen,
                1 <= k,
                flen > 0 ==> k <= flen,
                sorted_by_depth(dirs.deep_view()),
                distinct_paths(dirs.deep_view()),
                forall|d: Seq<Seq<char>>|
                    path_in(dirs.deep_view(), d) <==> (ancestor_of_some(
                        d,
                        files.deep_view().subrange(0, i as int),
                    ) || (exists|k2: int| 1 <= k2 < k && k2 < flen && d == fv.subrange(0, k2))),
            decreases flen - k,
        {
            let pre = prefix_path(f, k);
            proof {
                assert(f.deep_view() == fv);
                assert(pre.deep_view() == fv.subrange(0, k as int));
            }
            if !contains_path(&dirs, &pre) {
                insert_by_depth(&mut dirs, pre);
            }
            proof {
                assert forall|d: Seq<Seq<char>>|
                    path_in(dirs.deep_view(), d) implies (ancestor_of_some(
                    d,
                    files.deep_view().subrange(0, i as int),
                ) || (exists|k2: int|
                    1 <= k2 < k + 1 && k2 < flen && d == fv.subrange(0, k2))) by {
                    if d == fv.subrange(0, k as int) {
                        assert(1 <= k < k + 1 && k < flen && d == fv.subrange(0, k as int));
                    }
                }
            }
            k += 1;
        }
        proof {
            assert forall|d: Seq<Seq<char>>|
                path_in(dirs.deep_view(), d) implies ancestor_of_some(
                d,
                files.deep_view().subrange(0, i + 1 as int),
            ) by {
                if ancestor_of_some(d, files.deep_view().subrange(0, i as int)) {
                    let j = choose|j: int|
                        0 <= j < i && is_rel_ancestor(
                            d,
                            #[trigger] files.deep_view().subrange(0, i as int)[j],
                        );
                    assert(files.deep_view().subrange(0, i + 1 as int)[j] == files.deep_view()[j]);
                    assert(is_rel_ancestor(d, files.deep_view().subrange(0, i + 1 as int)[j]));
                } else {
                    let k2 = choose|k2: int| 1 <= k2 < k && k2 < flen && d == fv.subrange(0, k2);
                    assert(1 <= k2 < k && k2 < flen && d == fv.subrange(0, k2));
                    assert(d.len() == k2);
                    assert(files.deep_view().subrange(0, i + 1 as int)[i as int] == fv);
                    assert(is_rel_ancestor(d, fv));
                    assert(is_rel_ancestor(d, files.deep_view().subrange(0, i + 1 as int)[i as int]));
                }
            }
            assert forall|d: Seq<Seq<char>>|
                ancestor_of_some(d, files.deep_view().subrange(0, i + 1 as int)) implies path_in(
                dirs.deep_view(),
                d,
            ) by {
                let j = choose|j: int|
                    0 <= j < i + 1 && is_rel_ancestor(
                        d,
                        #[trigger] files.deep_view().subrange(0, i + 1 as int)[j],
                    );
                if j < i {
                    assert(files.deep_view().subrange(0, i as int)[j] == files.deep_view()[j]);
                    assert(is_rel_ancestor(d, files.deep_view().subrange(0, i as int)[j]));
                } else {
                    assert(files.deep_view().subrange(0, i + 1 as int)[j] == fv);
                    assert(d == fv.subrange(0, d.len() as int));
                    assert(1 <= d.len() < flen && d == fv.subrange(0, d.len() as int));
                }
            }
        }
        i += 1;
    }
    proof {
        assert(files.deep_view().subrange(0, files.deep_view().len() as int) =~= files.deep_view());
        lemma_deep_view_index(files);
    }
    dirs
}

/// What the pre-build clean step must do: the artifacts to remove from
/// the output tree, the markers to remove from the state tree, and the
/// directories under each root that may thereby have emptied, deepest
/// first.
pub struct CleanPlan {
    /// Files to remove under the output root: each recorded artifact.
    pub output_removals: Vec<Vec<String>>,
    /// Files to remove under the marker root: the markers themselves.
    pub marker_removals: Vec<Vec<String>>,
    /// Directories under the output root to remove if they emptied,
    /// children before parents, the roots themselves excluded.
    pub output_dirs: Vec<Vec<String>>,
    /// The same under the marker root.
    pub marker_dirs: Vec<Vec<String>>,
}

/// Computes the clean plan for the markers found in the state tree.
///
/// Missing files are tolerated by the executor; a directory is removed
/// only if it is empty when visited.
pub fn clean_plan(markers: &Vec<Vec<String>>) -> (p: CleanPlan)
    requires
        forall|i: int|
            0 <= i < markers.deep_view().len() ==> is_marker_path(
                #[trigger] markers.deep_view()[i],
            ),
    ensures
        p.marker_removals.deep_view() == markers.deep_view(),
        p.output_removals.deep_view().len() == markers.deep_view().len(),
        forall|i: int|
            0 <= i < markers.deep_view().len() ==> #[trigger] p.output_removals.deep_view()[i]
                == strip_marker_path(markers.deep_view()[i]),
        sorted_by_depth(p.output_dirs.deep_view()),
        distinct_paths(p.output_dirs.deep_view()),
        forall|d: Seq<Seq<char>>|
            path_in(p.output_dirs.deep_view(), d) <==> ancestor_of_some(
                d,
                p.output_removals.deep_view(),
            ),
        sorted_by_depth(p.marker_dirs.deep_view()),
        distinct_paths(p.marker_dirs.deep_view()),
        forall|d: Seq<Seq<char>>|
            path_in(p.marker_dirs.deep_view(), d) <==> ancestor_of_some(
                d,
                p.marker_removals.deep_view(),
            ),
{
    let mut output_removals: Vec<Vec<String>> = Vec::new();
    let mut marker_removals: Vec<Vec<String>> = Vec::new();
    let mut i: usize = 0;
    while i < markers.len()
        invariant
            i <= markers@.len(),
            forall|j: int|
                0 <= j < markers.deep_view().len() ==> is_marker_path(
                    #[trigger] markers.deep_view()[j],
                ),
            marker_removals@.len() == i,
            output_removals@.len() == i,
            marker_removals.deep_view() == markers.deep_view().subrange(0, i as int),
            forall|j: int|
                0 <= j < i ==> #[trigger] output_removals.deep_view()[j] == strip_marker_path(
                    markers.deep_view()[j],
                ),
        decreases markers@.len() - i,
    {
        let ghost mv = markers.deep_view()[i as int];
        proof {
            lemma_deep_view_index(markers);
            lemma_deep_view_index(&markers[i as int]);
            assert(mv == markers@[i as int].deep_view());
            assert(mv.len() == markers@[i as int]@.len());
            assert(is_marker_path(mv));
        }
        let m = &markers[i];
        let last = m.len() - 1;
        let mut out = prefix_path(m, last);
        proof {
            assert(m.deep_view() == mv);
            assert(mv[last as int] == m@[last as int]@);
            assert(mv.last() == m@[last as int]@);
        }
        let stripped = strip_marker_file_name(m[last].as_str());
        let ghost out0 = out@;
        out.push(stripped);
        proof {
            assert(out@ == out0.push(stripped));
            lemma_deep_view_index(&out);
            assert(out.deep_view() =~~= strip_marker_path(mv));
        }
        let ghost or0 = output_removals@;
        let ghost ord0 = output_removals.deep_view();
        output_removals.push(out);
        let ghost mr0 = marker_removals@;
        let ghost mrd0 = marker_removals.deep_view();
        let mc = clone_path(m);
        marker_removals.push(mc);
        proof {
            lemma_deep_view_index(&output_removals);
            lemma_deep_view_index(&marker_removals);
            assert(output_removals@ == or0.push(out));
            assert(marker_removals@ == mr0.push(mc));
            assert(forall|j: int|
                0 <= j < i ==> #[trigger] output_removals.deep_view()[j] == ord0[j]);
            assert(output_removals.deep_view()[i as int] == out.deep_view());
            assert(marker_removals.deep_view() =~~= markers.deep_view().subrange(0, i + 1 as int));
        }
        i += 1;
    }
    proof {
        assert(markers.deep_view().subrange(0, markers.deep_view().len() as int)
            =~= markers.deep_view());
    }
    let output_dirs = collect_dirs(&output_removals);
    let marker_dirs = collect_dirs(&marker_removals);
    CleanPlan { output_removals, marker_removals, output_dirs, marker_dirs }
}

/// What the post-build harvest step must do: create one zero-byte marker
/// per artifact in the state tree, then move each artifact to the same
/// relative path under the output root (creating parents as needed).
pub struct HarvestPlan {
    /// Markers to create under the marker root, one per artifact.
    pub markers_to_create: Vec<Vec<String>>,
    /// Artifacts to move: each path is relative both to the marker root
    /// (the source) and to the output root (the destination).
    pub moves: Vec<Vec<String>>,
}

/// Computes the harvest plan for the artifacts found in the marker
/// directory after the build: every regular file or symlink that is not
/// itself a marker.
pub fn harvest_plan(artifacts: &Vec<Vec<String>>) -> (p: HarvestPlan)
    requires
        forall|i: int|
            0 <= i < artifacts.deep_view().len() ==> wf_file_path(
                #[trigger] artifacts.deep_view()[i],
            ),
    ensures
        p.moves.deep_view() == artifacts.deep_view(),
        p.markers_to_create.deep_view().len() == artifacts.deep_view().len(),
        forall|i: int|
            0 <= i < artifacts.deep_view().len() ==> #[trigger] p.markers_to_create.deep_view()[i]
                == mark_path(artifacts.deep_view()[i]),
{
    let mut markers_to_create: Vec<Vec<String>> = Vec::new();
    let mut moves: Vec<Vec<String>> = Vec::new();
    let mut i: usize = 0;
    while i < artifacts.len()
        invariant
            i <= artifacts@.len(),
            forall|j: int|
                0 <= j < artifacts.deep_view().len() ==> wf_file_path(
                    #[trigger] artifacts.deep_view()[j],
                ),
            moves@.len() == i,
            markers_to_create@.len() == i,
            moves.deep_view() == artifacts.deep_view().subrange(0, i as int),
            forall|j: int|
                0 <= j < i ==> #[trigger] markers_to_create.deep_view()[j] == mark_path(
                    artifacts.deep_view()[j],
                ),
        decreases artifacts@.len() - i,
    {
        let ghost av = artifacts.deep_view()[i as int];
        proof {
            lemma_deep_view_index(artifacts);
            lemma_deep_view_index(&artifacts[i as int]);
            assert(av == artifacts@[i as int].deep_view());
            assert(av.len() == artifacts@[i as int]@.len());
            assert(wf_file_path(av));
        }
        let a = &artifacts[i];
        let last = a.len() - 1;
        let mut marker = prefix_path(a, last);
        proof {
            assert(a.deep_view() == av);
            assert(av[last as int] == a@[last as int]@);
            assert(av.last() == a@[last as int]@);
        }
        let marked = mark_file_name(a[last].as_str());
        let ghost marker0 = marker@;
        marker.push(marked);
        proof {
            assert(marker@ == marker0.push(marked));
            lemma_deep_view_index(&marker);
            assert(marker.deep_view() =~~= mark_path(av));
        }
        let ghost mt0 = markers_to_create@;
        let ghost mtd0 = markers_to_create.deep_view();
        markers_to_create.push(marker);
        let ghost mo0 = moves@;
        let ac = clone_path(a);
        moves.push(ac);
        proof {
            lemma_deep_view_index(&markers_to_create);
            lemma_deep_view_index(&moves);
            assert(markers_to_create@ == mt0.push(marker));
            assert(moves@ == mo0.push(ac));
            assert(forall|j: int|
                0 <= j < i ==> #[trigger] markers_to_create.deep_view()[j] == mtd0[j]);
            assert(markers_to_create.deep_view()[i as int] == marker.deep_view());
            assert(moves.deep_view() =~~= artifacts.deep_view().subrange(0, i + 1 as int));
        }
        i += 1;
    }
    proof {
        assert(artifacts.deep_view().subrange(0, artifacts.deep_view().len() as int)
            =~= artifacts.deep_view());
    }
    HarvestPlan { markers_to_create, moves }
}


/// The artifact files recorded by the markers of a state tree: the
/// stripped path of every marker it holds.
pub open spec fn spec_recorded_artifacts(state: Set<Seq<Seq<char>>>) -> Set<Seq<Seq<char>>> {
    Set::new(
        |q: Seq<Seq<char>>|
            exists|p: Seq<Seq<char>>|
                state.contains(p) && is_marker_path(p) && q == strip_marker_path(p),
    )
}

/// The marker files recording an artifact set.
pub open spec fn spec_marked(arts: Set<Seq<Seq<char>>>) -> Set<Seq<Seq<char>>> {
    Set::new(
        |q: Seq<Seq<char>>| exists|p: Seq<Seq<char>>| arts.contains(p) && q == mark_path(p),
    )
}

/// The output tree after the pre-build clean: every recorded artifact is
/// removed.
pub open spec fn spec_clean_output(
    output: Set<Seq<Seq<char>>>,
    state: Set<Seq<Seq<char>>>,
) -> Set<Seq<Seq<char>>> {
    output.difference(spec_recorded_artifacts(state))
}

/// The state tree after the pre-build clean: every marker is removed.
pub open spec fn spec_clean_state(state: Set<Seq<Seq<char>>>) -> Set<Seq<Seq<char>>> {
    state.filter(|p: Seq<Seq<char>>| !is_marker_path(p))
}

/// The output tree after one full build (clean, then harvest of the
/// artifact set the build produced).
pub open spec fn spec_build_output(
    output: Set<Seq<Seq<char>>>,
    state: Set<Seq<Seq<char>>>,
    arts: Set<Seq<Seq<char>>>,
) -> Set<Seq<Seq<char>>> {
    spec_clean_output(output, state).union(arts)
}

/// The state tree after one full build: the surviving non-marker files
/// plus one fresh marker per artifact.
pub open spec fn spec_build_state(
    state: Set<Seq<Seq<char>>>,
    arts: Set<Seq<Seq<char>>>,
) -> Set<Seq<Seq<char>>> {
    spec_clean_state(state).union(spec_marked(arts))
}

/// An artifact set the harvest step can produce: file paths with nonempty
/// names that are not themselves markers.
pub open spec fn wf_artifacts(arts: Set<Seq<Seq<char>>>) -> bool {
    forall|p: Seq<Seq<char>>|
        #[trigger] arts.contains(p) ==> p.len() > 0 && p.last().len() > 0 && !is_marker_path(p)
}

/// Law: after the pre-build clean the state tree holds no marker file —
/// in particular none whose corresponding output file still exists.
pub proof fn lemma_clean_state_no_markers(state: Set<Seq<Seq<char>>>, q: Seq<Seq<char>>)
    requires
        spec_clean_state(state).contains(q),
    ensures
        !is_marker_path(q),
{
}

/// Law: the clean step removes, for every marker recorded in the state
/// tree, both the marker itself and the artifact it stands for.
pub proof fn lemma_clean_removes_recorded(
    output: Set<Seq<Seq<char>>>,
    state: Set<Seq<Seq<char>>>,
    p: Seq<Seq<char>>,
)
    requires
        state.contains(p),
        is_marker_path(p),
    ensures
        !spec_clean_state(state).contains(p),
        !spec_clean_output(output, state).contains(strip_marker_path(p)),
{
    assert(spec_recorded_artifacts(state).contains(strip_marker_path(p)));
}

/// Law: with no marker in the state tree, the clean step is a no-op on
/// both trees.
pub proof fn lemma_clean_noop(output: Set<Seq<Seq<char>>>, state: Set<Seq<Seq<char>>>)
    requires
        forall|p: Seq<Seq<char>>| #[trigger] state.contains(p) ==> !is_marker_path(p),
    ensures
        spec_clean_output(output, state) == output,
        spec_clean_state(state) == state,
{
    assert forall|q: Seq<Seq<char>>|
        output.contains(q) implies spec_clean_output(output, state).contains(q) by {
        if spec_recorded_artifacts(state).contains(q) {
            let p = choose|p: Seq<Seq<char>>|
                state.contains(p) && is_marker_path(p) && q == strip_marker_path(p);
            assert(state.contains(p));
        }
    }
    assert(spec_clean_output(output, state) =~= output);
    assert(spec_clean_state(state) =~= state);
}

/// Law: after a successful build every produced artifact stands in the
/// output tree, and its marker — which stands for exactly that artifact —
/// in the state tree.
pub proof fn lemma_build_records_artifacts(
    output: Set<Seq<Seq<char>>>,
    state: Set<Seq<Seq<char>>>,
    arts: Set<Seq<Seq<char>>>,
    p: Seq<Seq<char>>,
)
    requires
        arts.contains(p),
        p.len() > 0,
        p.last().len() > 0,
    ensures
        spec_build_output(output, state, arts).contains(p),
        spec_build_state(state, arts).contains(mark_path(p)),
        is_marker_path(mark_path(p)),
        strip_marker_path(mark_path(p)) == p,
{
    lemma_mark_round_trip(p);
    assert(spec_marked(arts).contains(mark_path(p)));
}

/// After one build of a marker-only state tree, the state tree holds
/// exactly the markers of the artifact set.
proof fn lemma_build_state_is_marked(
    state: Set<Seq<Seq<char>>>,
    arts: Set<Seq<Seq<char>>>,
)
    requires
        forall|p: Seq<Seq<char>>| #[trigger] state.contains(p) ==> is_marker_path(p),
    ensures
        spec_build_state(state, arts) == spec_marked(arts),
{
    assert(spec_clean_state(state) =~= Set::<Seq<Seq<char>>>::empty());
    assert(spec_build_state(state, arts) =~= spec_marked(arts));
}

/// The artifacts recorded by the markers of an artifact set are that set.
proof fn lemma_recorded_of_marked(arts: Set<Seq<Seq<char>>>)
    requires
        wf_artifacts(arts),
    ensures
        spec_recorded_artifacts(spec_marked(arts)) == arts,
{
    assert forall|q: Seq<Seq<char>>|
        spec_recorded_artifacts(spec_marked(arts)).contains(q) implies arts.contains(q) by {
        let p = choose|p: Seq<Seq<char>>|
            spec_marked(arts).contains(p) && is_marker_path(p) && q == strip_marker_path(p);
        let a = choose|a: Seq<Seq<char>>| arts.contains(a) && p == mark_path(a);
        lemma_mark_round_trip(a);
        assert(q == strip_marker_path(mark_path(a)));
    }
    assert forall|q: Seq<Seq<char>>|
        arts.contains(q) implies spec_recorded_artifacts(spec_marked(arts)).contains(q) by {
        lemma_mark_round_trip(q);
        assert(spec_marked(arts).contains(mark_path(q)));
        assert(spec_marked(arts).contains(mark_path(q)) && is_marker_path(mark_path(q)) && q
            == strip_marker_path(mark_path(q)));
    }
    assert(spec_recorded_artifacts(spec_marked(arts)) =~= arts);
}

/// Law: running the same build twice with identical inputs leaves both
/// trees exactly as one run leaves them — the output tree unchanged and
/// exactly one marker per artifact.
pub proof fn lemma_build_idempotent(
    output: Set<Seq<Seq<char>>>,
    state: Set<Seq<Seq<char>>>,
    arts: Set<Seq<Seq<char>>>,
)
    requires
        forall|p: Seq<Seq<char>>| #[trigger] state.contains(p) ==> is_marker_path(p),
        wf_artifacts(arts),
    ensures
        spec_build_output(
            spec_build_output(output, state, arts),
            spec_build_state(state, arts),
            arts,
        ) == spec_build_output(output, state, arts),
        spec_build_state(spec_build_state(state, arts), arts) == spec_build_state(state, arts),
{
    let o1 = spec_build_output(output, state, arts);
    let s1 = spec_build_state(state, arts);
    lemma_build_state_is_marked(state, arts);
    lemma_recorded_of_marked(arts);
    assert forall|p: Seq<Seq<char>>| #[trigger] s1.contains(p) implies is_marker_path(p) by {
        let a = choose|a: Seq<Seq<char>>| arts.contains(a) && p == mark_path(a);
        lemma_mark_round_trip(a);
    }
    assert(spec_clean_output(o1, s1) =~= o1.difference(arts));
    assert(spec_build_output(o1, s1, arts) =~= o1);
    lemma_build_state_is_marked(s1, arts);
}

/// Law: a build that fails after its clean step and is rerun with the
/// same inputs yields the same trees as a single successful build.
pub proof fn lemma_failed_then_retried(
    output: Set<Seq<Seq<char>>>,
    state: Set<Seq<Seq<char>>>,
    arts: Set<Seq<Seq<char>>>,
)
    requires
        forall|p: Seq<Seq<char>>| #[trigger] state.contains(p) ==> is_marker_path(p),
        wf_artifacts(arts),
    ensures
        spec_build_output(spec_clean_output(output, state), spec_clean_state(state), arts)
            == spec_build_output(output, state, arts),
        spec_build_state(spec_clean_state(state), arts) == spec_build_state(state, arts),
{
    let o1 = spec_clean_output(output, state);
    let s1 = spec_clean_state(state);
    assert(s1 =~= Set::<Seq<Seq<char>>>::empty());
    assert forall|q: Seq<Seq<char>>|
        o1.contains(q) implies spec_clean_output(o1, s1).contains(q) by {
        if spec_recorded_artifacts(s1).contains(q) {
            let p = choose|p: Seq<Seq<char>>|
                s1.contains(p) && is_marker_path(p) && q == strip_marker_path(p);
            assert(s1.contains(p));
        }
    }
    assert(spec_clean_output(o1, s1) =~= o1);
    assert(spec_build_output(o1, s1, arts) =~= spec_build_output(output, state, arts));
    assert(spec_clean_state(s1) =~= Set::<Seq<Seq<char>>>::empty());
    assert(spec_build_state(s1, arts) =~= spec_build_state(state, arts));
}


/// Law: the output removals of a clean plan are exactly the artifacts the
/// model's clean transition removes — the stripped path of every marker
/// found in the state tree.
pub proof fn lemma_clean_plan_matches_model(markers: Seq<Seq<Seq<char>>>, outs: Seq<Seq<Seq<char>>>)
    requires
        outs.len() == markers.len(),
        forall|i: int| 0 <= i < markers.len() ==> is_marker_path(#[trigger] markers[i]),
        forall|i: int| 0 <= i < markers.len() ==> #[trigger] outs[i] == strip_marker_path(
            markers[i],
        ),
    ensures
        outs.to_set() == spec_recorded_artifacts(markers.to_set()),
{
    assert forall|q: Seq<Seq<char>>|
        outs.to_set().contains(q) implies spec_recorded_artifacts(markers.to_set()).contains(
        q,
    ) by {
        let i = choose|i: int| 0 <= i < outs.len() && outs[i] == q;
        assert(markers.to_set().contains(markers[i]));
        assert(markers.to_set().contains(markers[i]) && is_marker_path(markers[i]) && q
            == strip_marker_path(markers[i]));
    }
    assert forall|q: Seq<Seq<char>>|
        spec_recorded_artifacts(markers.to_set()).contains(q) implies outs.to_set().contains(
        q,
    ) by {
        let p = choose|p: Seq<Seq<char>>|
            markers.to_set().contains(p) && is_marker_path(p) && q == strip_marker_path(p);
        let i = choose|i: int| 0 <= i < markers.len() && markers[i] == p;
        assert(outs[i] == q);
        assert(outs.contains(q));
    }
    assert(outs.to_set() =~= spec_recorded_artifacts(markers.to_set()));
}

} // verus!


