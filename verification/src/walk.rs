//! A whole walk over a directory tree, as the per-directory decisions of
//! `Scanner::visit_dir` compose: what it reports, and the laws of that report.

use vstd::prelude::*;
use crate::detectors::{skip_descending_table, detector_table, DetectorView};
use crate::scanner::{first_match, is_excluded, sibling_views, Scanner, WalkStep};
use crate::text::{is_infix_of, with_forward_slashes};

verus! {

/// A directory as a walk meets it: its path, its name, the entries of its
/// parent (name, whether a regular file), and its subdirectories in walk order.
pub struct DirNode {
    pub path: String,
    pub name: String,
    pub siblings: Vec<(String, bool)>,
    pub children: Vec<DirNode>,
}

/// What happens to one directory in a walk.
pub enum Visit {
    /// Skipped without a record: excluded, or never descended into.
    Skip,
    /// Recorded under this detector, and not descended into.
    Record(DetectorView),
    /// Descended into.
    Descend,
}

/// The decision `Scanner::visit_dir` takes on a directory.
pub open spec fn visit_outcome(
    excludes: Seq<Seq<char>>,
    path: Seq<char>,
    name: Seq<char>,
    siblings: Seq<(Seq<char>, bool)>,
) -> Visit {
    if is_excluded(excludes, path) || skip_descending_table().contains(name) {
        Visit::Skip
    } else {
        match first_match(detector_table(), name, siblings) {
            Some(d) => Visit::Record(d),
            None => Visit::Descend,
        }
    }
}

/// What a pre-order walk of the tree `n` reports (label, regenerate hint,
/// path), in walk order: nothing for a skipped directory, one entry for a
/// recorded one, and the reports of the subdirectories, in order, for one that
/// is descended into.
pub open spec fn walk_report(n: DirNode, excludes: Seq<Seq<char>>) -> Seq<
    (Seq<char>, Seq<char>, Seq<char>),
>
    decreases n, 1int,
{
    match visit_outcome(excludes, n.path@, n.name@, sibling_views(n.siblings@)) {
        Visit::Skip => Seq::empty(),
        Visit::Record(d) => seq![(d.label, d.regenerate_hint, n.path@)],
        Visit::Descend => reports_of(n.children@, excludes),
    }
}

/// The reports of a list of trees walked one after the other.
pub open spec fn reports_of(cs: Seq<DirNode>, excludes: Seq<Seq<char>>) -> Seq<
    (Seq<char>, Seq<char>, Seq<char>),
>
    decreases cs, 0int,
{
    if cs.len() == 0 {
        Seq::empty()
    } else {
        reports_of(cs.drop_last(), excludes) + walk_report(cs.last(), excludes)
    }
}

impl Scanner {
    /// Walk the tree `node` in pre-order, visiting each directory and entering
    /// the subdirectories of exactly those that `visit_dir` says to descend.
    pub fn walk_tree(&mut self, node: &DirNode)
        requires
            old(self).wf(),
        ensures
            final(self).wf(),
            final(self).exclude_patterns() == old(self).exclude_patterns(),
            final(self).found() == old(self).found() + walk_report(*node, old(self).exclude_patterns()),
        decreases node,
    {
        let ghost start = self.found();
        let ghost ex = self.exclude_patterns();
        let step = self.visit_dir(node.path.as_str(), node.name.as_str(), &node.siblings);
        if step == WalkStep::Descend {
            let ghost mid = self.found();
            assert(mid == start);
            let mut i: usize = 0;
            assert(node.children@.take(0) =~= Seq::<DirNode>::empty());
            assert(start + reports_of(Seq::<DirNode>::empty(), ex) =~= start);
            while i < node.children.len()
                invariant
                    self.wf(),
                    self.exclude_patterns() == ex,
                    i <= node.children.len(),
                    self.found() == start + reports_of(node.children@.take(i as int), ex),
                decreases node.children.len() - i,
            {
                let ghost before = self.found();
                assert(node.children@.take(i + 1).drop_last() =~= node.children@.take(i as int));
                assert(node.children@.take(i + 1).last() == node.children@[i as int]);
                self.walk_tree(&node.children[i]);
                assert(self.found() =~= start + reports_of(node.children@.take(i + 1), ex));
                i = i + 1;
            }
            assert(node.children@.take(node.children.len() as int) =~= node.children@);
        } else {
            assert(self.found() =~= start + walk_report(*node, ex));
        }
    }
}

/// Every pattern of `e1` is also a pattern of `e2`.
pub open spec fn patterns_within(e1: Seq<Seq<char>>, e2: Seq<Seq<char>>) -> bool {
    forall|i: int| 0 <= i < e1.len() ==> e2.contains(#[trigger] e1[i])
}

/// More exclude patterns exclude at least the same paths.
pub proof fn lemma_excluded_monotone(e1: Seq<Seq<char>>, e2: Seq<Seq<char>>, path: Seq<char>)
    requires
        patterns_within(e1, e2),
    ensures
        is_excluded(e1, path) ==> is_excluded(e2, path),
{
    if is_excluded(e1, path) {
        let i = choose|i: int|
            0 <= i < e1.len() && #[trigger] is_infix_of(
                with_forward_slashes(e1[i]),
                with_forward_slashes(path),
            );
        assert(e2.contains(e1[i]));
        let j = choose|j: int| 0 <= j < e2.len() && e2[j] == e1[i];
        assert(is_infix_of(with_forward_slashes(e2[j]), with_forward_slashes(path)));
    }
}

/// Adding exclude patterns never adds findings: everything a walk reports
/// with the larger set of patterns it also reports with the smaller one.
pub proof fn lemma_more_excludes_report_less(n: DirNode, e1: Seq<Seq<char>>, e2: Seq<Seq<char>>)
    requires
        patterns_within(e1, e2),
    ensures
        forall|k: int|
            0 <= k < walk_report(n, e2).len() ==> walk_report(n, e1).contains(
                #[trigger] walk_report(n, e2)[k],
            ),
    decreases n, 1int,
{
    lemma_excluded_monotone(e1, e2, n.path@);
    let o1 = visit_outcome(e1, n.path@, n.name@, sibling_views(n.siblings@));
    let o2 = visit_outcome(e2, n.path@, n.name@, sibling_views(n.siblings@));
    match o2 {
        Visit::Skip => {
            assert(walk_report(n, e2).len() == 0);
        },
        Visit::Record(d) => {
            assert(o1 == o2);
            assert(walk_report(n, e2) == seq![(d.label, d.regenerate_hint, n.path@)]);
            assert(walk_report(n, e1) == seq![(d.label, d.regenerate_hint, n.path@)]);
            assert(walk_report(n, e1)[0] == walk_report(n, e2)[0]);
        },
        Visit::Descend => {
            assert(o1 == o2);
            assert(walk_report(n, e2) == reports_of(n.children@, e2));
            assert(walk_report(n, e1) == reports_of(n.children@, e1));
            lemma_more_excludes_reports_of_less(n.children@, e1, e2);
        },
    }
}

/// `lemma_more_excludes_report_less` for a list of trees.
pub proof fn lemma_more_excludes_reports_of_less(
    cs: Seq<DirNode>,
    e1: Seq<Seq<char>>,
    e2: Seq<Seq<char>>,
)
    requires
        patterns_within(e1, e2),
    ensures
        forall|k: int|
            0 <= k < reports_of(cs, e2).len() ==> reports_of(cs, e1).contains(
                #[trigger] reports_of(cs, e2)[k],
            ),
    decreases cs, 0int,
{
    if cs.len() > 0 {
        lemma_more_excludes_reports_of_less(cs.drop_last(), e1, e2);
        lemma_more_excludes_report_less(cs.last(), e1, e2);
        let a1 = reports_of(cs.drop_last(), e1);
        let b1 = walk_report(cs.last(), e1);
        let a2 = reports_of(cs.drop_last(), e2);
        let b2 = walk_report(cs.last(), e2);
        assert forall|k: int| 0 <= k < (a2 + b2).len() implies (a1 + b1).contains(
            #[trigger] (a2 + b2)[k],
        ) by {
            if k < a2.len() {
                assert(a1.contains(a2[k]));
                let m = choose|m: int| 0 <= m < a1.len() && a1[m] == a2[k];
                assert((a1 + b1)[m] == a2[k]);
            } else {
                assert(b1.contains(b2[k - a2.len()]));
                let m = choose|m: int| 0 <= m < b1.len() && b1[m] == b2[k - a2.len()];
                assert((a1 + b1)[a1.len() + m] == b2[k - a2.len()]);
            }
        }
    }
}

/// `b` lies strictly inside the directory `a`: it is `a`, a slash, and more.
pub open spec fn inside(a: Seq<char>, b: Seq<char>) -> bool {
    b.len() > a.len() && b.subrange(0, a.len() as int) == a && b[a.len() as int] == '/'
}

/// `b` is the directory `a` or lies inside it.
pub open spec fn covered(a: Seq<char>, b: Seq<char>) -> bool {
    b == a || inside(a, b)
}

/// `c` is a subdirectory of the directory at `parent`: its path is the
/// parent's, a slash and its name, and its name holds no slash.
pub open spec fn child_of(parent: Seq<char>, c: DirNode) -> bool {
    c.path@ == parent + seq!['/'] + c.name@ && !c.name@.contains('/')
}

/// The tree's paths are laid out as directories are: each subdirectory's
/// path extends its parent's by a slash and its name, and no two
/// subdirectories of one directory share a name.
pub open spec fn well_formed(n: DirNode) -> bool
    decreases n, 1int,
{
    children_well_formed(n.path@, n.children@)
}

/// `well_formed` for the subdirectories `cs` of the directory at `parent`.
pub open spec fn children_well_formed(parent: Seq<char>, cs: Seq<DirNode>) -> bool
    decreases cs, 0int,
{
    if cs.len() == 0 {
        true
    } else {
        &&& children_well_formed(parent, cs.drop_last())
        &&& child_of(parent, cs.last())
        &&& well_formed(cs.last())
        &&& forall|a: int| 0 <= a < cs.len() - 1 ==> (#[trigger] cs[a]).name@ != cs.last().name@
    }
}

/// From position `k`, `y` holds the name `nm` followed by a slash or by its end.
spec fn segment_at(y: Seq<char>, k: int, nm: Seq<char>) -> bool {
    &&& y.len() >= k + nm.len()
    &&& y.subrange(k, k + nm.len()) == nm
    &&& (y.len() == k + nm.len() || y[k + nm.len()] == '/')
}

proof fn lemma_one_segment(y: Seq<char>, k: int, na: Seq<char>, nb: Seq<char>)
    requires
        0 <= k,
        segment_at(y, k, na),
        segment_at(y, k, nb),
        !na.contains('/'),
        !nb.contains('/'),
    ensures
        na == nb,
{
    if na.len() < nb.len() {
        assert(nb[na.len() as int] == y.subrange(k, k + nb.len())[na.len() as int]);
        assert(nb[na.len() as int] == '/');
    } else if nb.len() < na.len() {
        assert(na[nb.len() as int] == y.subrange(k, k + na.len())[nb.len() as int]);
        assert(na[nb.len() as int] == '/');
    } else {
        assert(na =~= nb);
    }
}

proof fn lemma_covered_segment(parent: Seq<char>, c: DirNode, x: Seq<char>)
    requires
        child_of(parent, c),
        covered(c.path@, x),
    ensures
        segment_at(x, parent.len() as int + 1, c.name@),
        inside(parent, x),
{
    let k: int = parent.len() as int + 1;
    let cp = c.path@;
    assert(cp.subrange(k, k + c.name@.len()) =~= c.name@);
    assert(cp.subrange(0, parent.len() as int) =~= parent);
    if x != cp {
        assert(x.subrange(0, cp.len() as int) == cp);
        assert(x.subrange(k, k + c.name@.len()) =~= cp.subrange(k, k + c.name@.len()));
        assert(x.subrange(0, parent.len() as int) =~= cp.subrange(0, parent.len() as int));
        assert(x[parent.len() as int] == x.subrange(0, cp.len() as int)[parent.len() as int]);
    }
}

proof fn lemma_inside_keeps_segment(x: Seq<char>, y: Seq<char>, k: int, nm: Seq<char>)
    requires
        0 <= k,
        segment_at(x, k, nm),
        inside(x, y),
    ensures
        segment_at(y, k, nm),
{
    assert(y.subrange(k, k + nm.len()) =~= x.subrange(k, k + nm.len())) by {
        assert forall|i: int| 0 <= i < nm.len() implies #[trigger] y.subrange(k, k + nm.len())[i]
            == x.subrange(k, k + nm.len())[i] by {
            assert(y.subrange(0, x.len() as int)[k + i] == x[k + i]);
        }
    }
    if x.len() > k + nm.len() {
        assert(y.subrange(0, x.len() as int)[k + nm.len()] == x[k + nm.len()]);
    }
}

/// Paths under two differently named subdirectories of one directory are
/// neither equal nor inside one another.
proof fn lemma_apart(parent: Seq<char>, ca: DirNode, cb: DirNode, x: Seq<char>, y: Seq<char>)
    requires
        child_of(parent, ca),
        child_of(parent, cb),
        ca.name@ != cb.name@,
        covered(ca.path@, x),
        covered(cb.path@, y),
    ensures
        x != y,
        !inside(x, y),
        !inside(y, x),
{
    let k: int = parent.len() as int + 1;
    lemma_covered_segment(parent, ca, x);
    lemma_covered_segment(parent, cb, y);
    if x == y {
        lemma_one_segment(x, k, ca.name@, cb.name@);
    }
    if inside(x, y) {
        lemma_inside_keeps_segment(x, y, k, ca.name@);
        lemma_one_segment(y, k, ca.name@, cb.name@);
    }
    if inside(y, x) {
        lemma_inside_keeps_segment(y, x, k, cb.name@);
        lemma_one_segment(x, k, ca.name@, cb.name@);
    }
}

/// No two entries of `r` name the same directory or one inside the other.
pub open spec fn unnested(r: Seq<(Seq<char>, Seq<char>, Seq<char>)>) -> bool {
    forall|i: int, j: int|
        #![trigger r[i], r[j]]
        0 <= i < r.len() && 0 <= j < r.len() && i != j ==> r[i].2 != r[j].2 && !inside(r[i].2, r[j].2)
}

/// In a well-formed tree a walk reports only the root or directories inside
/// it, and never two directories of which one is, or lies inside, the other:
/// a directory that is reported is not descended into.
pub proof fn lemma_report_unnested(n: DirNode, excludes: Seq<Seq<char>>)
    requires
        well_formed(n),
    ensures
        forall|k: int|
            0 <= k < walk_report(n, excludes).len() ==> covered(
                n.path@,
                (#[trigger] walk_report(n, excludes)[k]).2,
            ),
        unnested(walk_report(n, excludes)),
    decreases n, 1int,
{
    let o = visit_outcome(excludes, n.path@, n.name@, sibling_views(n.siblings@));
    match o {
        Visit::Skip => {
            assert(walk_report(n, excludes).len() == 0);
        },
        Visit::Record(d) => {
            assert(walk_report(n, excludes) == seq![(d.label, d.regenerate_hint, n.path@)]);
        },
        Visit::Descend => {
            assert(walk_report(n, excludes) == reports_of(n.children@, excludes));
            lemma_reports_of_unnested(n.path@, n.children@, excludes);
        },
    }
}

/// `lemma_report_unnested` for the subdirectories `cs` of the directory at
/// `parent`, walked in order.
pub proof fn lemma_reports_of_unnested(parent: Seq<char>, cs: Seq<DirNode>, excludes: Seq<Seq<char>>)
    requires
        children_well_formed(parent, cs),
    ensures
        forall|k: int|
            0 <= k < reports_of(cs, excludes).len() ==> exists|a: int|
                0 <= a < cs.len() && covered(
                    cs[a].path@,
                    (#[trigger] reports_of(cs, excludes)[k]).2,
                ),
        forall|k: int|
            0 <= k < reports_of(cs, excludes).len() ==> inside(
                parent,
                (#[trigger] reports_of(cs, excludes)[k]).2,
            ),
        unnested(reports_of(cs, excludes)),
    decreases cs, 0int,
{
    if cs.len() > 0 {
        let init = cs.drop_last();
        let c = cs.last();
        lemma_reports_of_unnested(parent, init, excludes);
        lemma_report_unnested(c, excludes);
        let a = reports_of(init, excludes);
        let b = walk_report(c, excludes);
        let r = reports_of(cs, excludes);
        assert(r == a + b);
        assert forall|k: int| 0 <= k < r.len() implies exists|m: int|
            0 <= m < cs.len() && covered(cs[m].path@, (#[trigger] r[k]).2) by {
            if k < a.len() {
                assert(r[k] == a[k]);
                let m = choose|m: int| 0 <= m < init.len() && covered(init[m].path@, a[k].2);
                assert(cs[m] == init[m]);
            } else {
                assert(r[k] == b[k - a.len()]);
                assert(covered(c.path@, b[k - a.len()].2));
                assert(cs[cs.len() - 1] == c);
            }
        }
        assert forall|k: int| 0 <= k < r.len() implies inside(parent, (#[trigger] r[k]).2) by {
            if k < a.len() {
                assert(r[k] == a[k]);
            } else {
                assert(r[k] == b[k - a.len()]);
                lemma_covered_segment(parent, c, b[k - a.len()].2);
            }
        }
        assert forall|i: int, j: int|
            #![trigger r[i], r[j]]
            0 <= i < r.len() && 0 <= j < r.len() && i != j implies r[i].2 != r[j].2 && !inside(
                r[i].2,
                r[j].2,
            ) by {
            if i < a.len() && j < a.len() {
                assert(r[i] == a[i] && r[j] == a[j]);
            } else if i >= a.len() && j >= a.len() {
                assert(r[i] == b[i - a.len()] && r[j] == b[j - a.len()]);
            } else {
                let (p, q) = if i < a.len() {
                    (i, j)
                } else {
                    (j, i)
                };
                assert(r[p] == a[p]);
                assert(r[q] == b[q - a.len()]);
                let m = choose|m: int| 0 <= m < init.len() && covered(init[m].path@, a[p].2);
                assert(init[m].name@ != c.name@) by {
                    assert(cs[m] == init[m]);
                }
                assert(child_of(parent, init[m])) by {
                    lemma_children_are_children(parent, init, m);
                }
                lemma_apart(parent, init[m], c, a[p].2, b[q - a.len()].2);
            }
        }
    }
}

proof fn lemma_children_are_children(parent: Seq<char>, cs: Seq<DirNode>, m: int)
    requires
        children_well_formed(parent, cs),
        0 <= m < cs.len(),
    ensures
        child_of(parent, cs[m]),
    decreases cs.len(),
{
    if m < cs.len() - 1 {
        lemma_children_are_children(parent, cs.drop_last(), m);
        assert(cs.drop_last()[m] == cs[m]);
    }
}

/// Entry `e` (label, regenerate hint, path) names a directory of the tree `n`
/// that a walk records: following the chain from `n` down to that directory,
/// every directory above it is descended into (not excluded, not a version
/// control directory, accepted by no detector), and the directory itself is
/// neither excluded nor a version control directory and is accepted first by
/// the detector whose label and hint `e` carries.
pub open spec fn reported_at(n: DirNode, excludes: Seq<Seq<char>>, e: (Seq<char>, Seq<char>, Seq<char>)) -> bool
    decreases n, 1int,
{
    match visit_outcome(excludes, n.path@, n.name@, sibling_views(n.siblings@)) {
        Visit::Skip => false,
        Visit::Record(d) => e == (d.label, d.regenerate_hint, n.path@),
        Visit::Descend => reported_in(n.children@, excludes, e),
    }
}

/// `reported_at` holds for one of the trees `cs`.
pub open spec fn reported_in(cs: Seq<DirNode>, excludes: Seq<Seq<char>>, e: (Seq<char>, Seq<char>, Seq<char>)) -> bool
    decreases cs, 0int,
{
    if cs.len() == 0 {
        false
    } else {
        reported_in(cs.drop_last(), excludes, e) || reported_at(cs.last(), excludes, e)
    }
}

/// `reported_in` says that one of the trees has the entry.
pub proof fn lemma_reported_in_some(cs: Seq<DirNode>, excludes: Seq<Seq<char>>, e: (Seq<char>, Seq<char>, Seq<char>))
    ensures
        reported_in(cs, excludes, e) <==> exists|i: int|
            0 <= i < cs.len() && #[trigger] reported_at(cs[i], excludes, e),
    decreases cs.len(),
{
    if cs.len() > 0 {
        lemma_reported_in_some(cs.drop_last(), excludes, e);
        if exists|i: int| 0 <= i < cs.len() && #[trigger] reported_at(cs[i], excludes, e) {
            let i = choose|i: int| 0 <= i < cs.len() && #[trigger] reported_at(cs[i], excludes, e);
            if i < cs.len() - 1 {
                assert(cs.drop_last()[i] == cs[i]);
            }
        }
        if reported_in(cs.drop_last(), excludes, e) {
            let i = choose|i: int|
                0 <= i < cs.drop_last().len() && #[trigger] reported_at(cs.drop_last()[i], excludes, e);
            assert(cs[i] == cs.drop_last()[i]);
        }
        if reported_at(cs.last(), excludes, e) {
            assert(cs[cs.len() - 1] == cs.last());
        }
    }
}

/// A walk reports exactly the directories that `reported_at` describes.
pub proof fn lemma_report_members(n: DirNode, excludes: Seq<Seq<char>>)
    ensures
        forall|e: (Seq<char>, Seq<char>, Seq<char>)|
            #[trigger] walk_report(n, excludes).contains(e) <==> reported_at(n, excludes, e),
    decreases n, 1int,
{
    let o = visit_outcome(excludes, n.path@, n.name@, sibling_views(n.siblings@));
    let r = walk_report(n, excludes);
    match o {
        Visit::Skip => {
            assert(r.len() == 0);
            assert forall|e: (Seq<char>, Seq<char>, Seq<char>)| #[trigger] r.contains(e) <==> reported_at(
                n,
                excludes,
                e,
            ) by {
                assert(!reported_at(n, excludes, e));
            }
        },
        Visit::Record(d) => {
            assert(r == seq![(d.label, d.regenerate_hint, n.path@)]);
            assert forall|e: (Seq<char>, Seq<char>, Seq<char>)| #[trigger] r.contains(e) <==> reported_at(
                n,
                excludes,
                e,
            ) by {
                if reported_at(n, excludes, e) {
                    assert(r[0] == e);
                }
            }
        },
        Visit::Descend => {
            assert(r == reports_of(n.children@, excludes));
            lemma_reports_of_members(n.children@, excludes);
            assert forall|e: (Seq<char>, Seq<char>, Seq<char>)| #[trigger] r.contains(e) <==> reported_at(
                n,
                excludes,
                e,
            ) by {
                assert(reported_at(n, excludes, e) == reported_in(n.children@, excludes, e));
            }
        },
    }
}

/// `lemma_report_members` for a list of trees walked one after the other.
pub proof fn lemma_reports_of_members(cs: Seq<DirNode>, excludes: Seq<Seq<char>>)
    ensures
        forall|e: (Seq<char>, Seq<char>, Seq<char>)|
            #[trigger] reports_of(cs, excludes).contains(e) <==> reported_in(cs, excludes, e),
    decreases cs, 0int,
{
    let r = reports_of(cs, excludes);
    if cs.len() == 0 {
        assert(r.len() == 0);
        assert forall|e: (Seq<char>, Seq<char>, Seq<char>)| #[trigger] r.contains(e) <==> reported_in(
            cs,
            excludes,
            e,
        ) by {}
    } else {
        let init = cs.drop_last();
        let c = cs.last();
        lemma_reports_of_members(init, excludes);
        lemma_report_members(c, excludes);
        let a = reports_of(init, excludes);
        let b = walk_report(c, excludes);
        assert(r == a + b);
        assert forall|e: (Seq<char>, Seq<char>, Seq<char>)| #[trigger] r.contains(e) <==> reported_in(
            cs,
            excludes,
            e,
        ) by {
            assert(reported_in(cs, excludes, e) == (reported_in(init, excludes, e) || reported_at(
                c,
                excludes,
                e,
            )));
            if r.contains(e) {
                let k = choose|k: int| 0 <= k < r.len() && r[k] == e;
                if k < a.len() {
                    assert(a[k] == e);
                    assert(a.contains(e));
                } else {
                    assert(b[k - a.len()] == e);
                    assert(b.contains(e));
                }
            }
            if a.contains(e) {
                let k = choose|k: int| 0 <= k < a.len() && a[k] == e;
                assert(r[k] == e);
            }
            if b.contains(e) {
                let k = choose|k: int| 0 <= k < b.len() && b[k] == e;
                assert(r[a.len() + k] == e);
            }
        }
    }
}

} // verus!
