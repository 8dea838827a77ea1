//! The decisions of the directory walk: which directories are artifacts,
//! which are excluded, which are not worth descending into; and the
//! measuring of a found directory from the files under it.

use vstd::prelude::*;
use crate::detectors::{
    Detector, DetectorView, detector_table, detectors, skip_descending, skip_descending_table,
    views_of,
};
use crate::model::Finding;
use crate::text::{
    chars_of, contains_chars, ends_with_chars, forward_slashes, is_infix_of,
    is_suffix_of, same_chars, with_forward_slashes,
};

verus! {

/// A marker that starts with '.' and holds no other '.' (".csproj") stands
/// for a file extension rather than for one file name.
pub open spec fn is_extension_marker(marker: Seq<char>) -> bool {
    marker.len() > 0 && marker[0] == '.' && !marker.drop_first().contains('.')
}

/// Whether a directory entry named `name` satisfies `marker`: an extension
/// marker is met by any name with that extension and a non-empty base
/// ("MyApp.csproj" for ".csproj"), any other marker by that exact name.
pub open spec fn marker_matches(name: Seq<char>, marker: Seq<char>) -> bool {
    if is_extension_marker(marker) {
        is_suffix_of(marker, name) && name != marker
    } else {
        name == marker
    }
}

/// Some regular file among `siblings` (each given as its name and whether it
/// is a regular file) satisfies `marker`; directories never do.
pub open spec fn has_marker(siblings: Seq<(Seq<char>, bool)>, marker: Seq<char>) -> bool {
    exists|i: int|
        0 <= i < siblings.len() && siblings[i].1 && #[trigger] marker_matches(siblings[i].0, marker)
}

/// The views of a list of (name, is a regular file) entries.
pub open spec fn sibling_views(v: Seq<(String, bool)>) -> Seq<(Seq<char>, bool)> {
    v.map_values(|e: (String, bool)| (e.0@, e.1))
}

/// The views of a list of strings.
pub open spec fn string_views(v: Seq<String>) -> Seq<Seq<char>> {
    v.map_values(|s: String| s@)
}

/// Detector `d` accepts a directory named `name` whose parent holds `siblings`.
pub open spec fn detector_applies(d: DetectorView, name: Seq<char>, siblings: Seq<(Seq<char>, bool)>) -> bool {
    &&& d.dir_name == name
    &&& match d.marker_sibling {
        None => true,
        Some(m) => has_marker(siblings, m),
    }
}

/// The first detector of `ds` that accepts the directory, if any.
pub open spec fn first_match(ds: Seq<DetectorView>, name: Seq<char>, siblings: Seq<(Seq<char>, bool)>) -> Option<
    DetectorView,
>
    decreases ds.len(),
{
    if ds.len() == 0 {
        None
    } else if detector_applies(ds[0], name, siblings) {
        Some(ds[0])
    } else {
        first_match(ds.drop_first(), name, siblings)
    }
}

/// A path is excluded when, with backslashes read as slashes, it contains one
/// of the exclude patterns read the same way.
pub open spec fn is_excluded(excludes: Seq<Seq<char>>, path: Seq<char>) -> bool {
    exists|i: int|
        0 <= i < excludes.len() && #[trigger] is_infix_of(
            with_forward_slashes(excludes[i]),
            with_forward_slashes(path),
        )
}

/// Whether `marker` is an extension marker.
fn extension_marker(marker: &Vec<char>) -> (r: bool)
    ensures
        r == is_extension_marker(marker@),
{
    if marker.len() == 0 || marker[0] != '.' {
        return false;
    }
    let mut i: usize = 1;
    while i < marker.len()
        invariant
            1 <= i <= marker.len(),
            forall|j: int| 1 <= j < i ==> marker@[j] != '.',
        decreases marker.len() - i,
    {
        if marker[i] == '.' {
            assert(marker@.drop_first()[i - 1] == '.');
            return false;
        }
        i = i + 1;
    }
    assert(!marker@.drop_first().contains('.')) by {
        if marker@.drop_first().contains('.') {
            let k = choose|k: int| 0 <= k < marker@.drop_first().len() && marker@.drop_first()[k] == '.';
            assert(marker@[k + 1] == '.');
        }
    }
    true
}

/// True if a regular file named like `marker` is among `siblings`, the
/// entries of the directory's parent, each given as its name and whether it
/// is a regular file. `marker` is either an exact filename ("Cargo.toml") or a
/// bare extension like ".csproj", in which case any file with that extension
/// counts. Directories never count, whatever their name. An unreadable parent
/// is an empty list.
pub fn has_marker_sibling(siblings: &Vec<(String, bool)>, marker: &str) -> (r: bool)
    ensures
        r == has_marker(sibling_views(siblings@), marker@),
{
    let m = chars_of(marker);
    let is_ext = extension_marker(&m);
    let mut i: usize = 0;
    while i < siblings.len()
        invariant
            m@ == marker@,
            is_ext == is_extension_marker(marker@),
            i <= siblings.len(),
            forall|j: int|
                0 <= j < i ==> !(#[trigger] sibling_views(siblings@)[j].1 && marker_matches(
                    sibling_views(siblings@)[j].0,
                    marker@,
                )),
        decreases siblings.len() - i,
    {
        let is_file = siblings[i].1;
        if is_file {
            let name = chars_of(siblings[i].0.as_str());
            let found = if is_ext {
                ends_with_chars(&name, &m) && !same_chars(&name, &m)
            } else {
                same_chars(&name, &m)
            };
            if found {
                assert(sibling_views(siblings@)[i as int].1 && marker_matches(
                    sibling_views(siblings@)[i as int].0,
                    marker@,
                ));
                return true;
            }
        }
        i = i + 1;
    }
    false
}

/// What the walk does after visiting a directory.
#[derive(Debug, Clone, Copy, PartialEq, Eq, Structural)]
pub enum WalkStep {
    /// Walk into the directory's entries.
    Descend,
    /// Do not walk into the directory.
    SkipSubtree,
}

/// A candidate as character sequences: label, regenerate hint, path.
pub open spec fn candidate_view(c: (String, String, String)) -> (Seq<char>, Seq<char>, Seq<char>) {
    (c.0@, c.1@, c.2@)
}

/// The walk over a directory tree, as the decisions taken on each directory:
/// the exclude patterns it was given and the candidates found so far.
pub struct Scanner {
    detectors: Vec<Detector>,
    skip_names: Vec<&'static str>,
    excludes: Vec<String>,
    candidates: Vec<(String, String, String)>,
}

impl Scanner {
    /// The scanner's tables are the known ones.
    pub closed spec fn wf(&self) -> bool {
        &&& views_of(self.detectors@) == detector_table()
        &&& self.skip_names@.map_values(|n: &'static str| n@) == skip_descending_table()
    }

    /// The exclude patterns, as given.
    pub closed spec fn exclude_patterns(&self) -> Seq<Seq<char>> {
        string_views(self.excludes@)
    }

    /// The candidates found so far (label, regenerate hint, path), in the
    /// order in which they were found.
    pub closed spec fn found(&self) -> Seq<(Seq<char>, Seq<char>, Seq<char>)> {
        self.candidates@.map_values(|c: (String, String, String)| candidate_view(c))
    }

    /// A walk that has found nothing yet and skips paths containing any of
    /// `excludes`.
    pub fn new(excludes: Vec<String>) -> (s: Scanner)
        ensures
            s.wf(),
            s.exclude_patterns() == string_views(excludes@),
            s.found() == Seq::<(Seq<char>, Seq<char>, Seq<char>)>::empty(),
    {
        let s = Scanner {
            detectors: detectors(),
            skip_names: skip_descending(),
            excludes,
            candidates: Vec::new(),
        };
        assert(s.found() =~= Seq::<(Seq<char>, Seq<char>, Seq<char>)>::empty());
        s
    }

    /// Whether some known detector for a directory named `dir_name` needs a
    /// marker, so that the names in the directory's parent matter.
    pub fn wants_siblings(&self, dir_name: &str) -> (r: bool)
        requires
            self.wf(),
        ensures
            r == exists|i: int|
                0 <= i < detector_table().len() && #[trigger] detector_table()[i].dir_name
                    == dir_name@ && detector_table()[i].marker_sibling is Some,
    {
        let name = chars_of(dir_name);
        let mut i: usize = 0;
        while i < self.detectors.len()
            invariant
                self.wf(),
                name@ == dir_name@,
                i <= self.detectors.len(),
                forall|j: int|
                    0 <= j < i ==> !(#[trigger] detector_table()[j].dir_name == dir_name@
                        && detector_table()[j].marker_sibling is Some),
            decreases self.detectors.len() - i,
        {
            let d = self.detectors[i];
            assert(detector_table()[i as int] == d@);
            if d.marker_sibling.is_some() && same_chars(&chars_of(d.dir_name), &name) {
                assert(detector_table()[i as int].dir_name == dir_name@);
                return true;
            }
            i = i + 1;
        }
        false
    }

    /// Whether the path is excluded.
    fn excluded(&self, path: &str) -> (r: bool)
        ensures
            r == is_excluded(self.exclude_patterns(), path@),
    {
        let p = forward_slashes(&chars_of(path));
        let mut i: usize = 0;
        while i < self.excludes.len()
            invariant
                p@ == with_forward_slashes(path@),
                i <= self.excludes.len(),
                forall|j: int|
                    0 <= j < i ==> !#[trigger] is_infix_of(
                        with_forward_slashes(self.exclude_patterns()[j]),
                        with_forward_slashes(path@),
                    ),
            decreases self.excludes.len() - i,
        {
            let pat = forward_slashes(&chars_of(self.excludes[i].as_str()));
            if contains_chars(&p, &pat) {
                assert(is_infix_of(
                    with_forward_slashes(self.exclude_patterns()[i as int]),
                    with_forward_slashes(path@),
                ));
                return true;
            }
            i = i + 1;
        }
        false
    }

    /// Whether the directory name is one that is never descended into.
    fn never_descended(&self, dir_name: &str) -> (r: bool)
        requires
            self.wf(),
        ensures
            r == skip_descending_table().contains(dir_name@),
    {
        let name = chars_of(dir_name);
        let mut i: usize = 0;
        while i < self.skip_names.len()
            invariant
                self.wf(),
                name@ == dir_name@,
                i <= self.skip_names.len(),
                forall|j: int| 0 <= j < i ==> skip_descending_table()[j] != dir_name@,
            decreases self.skip_names.len() - i,
        {
            assert(skip_descending_table()[i as int] == self.skip_names@[i as int]@);
            if same_chars(&chars_of(self.skip_names[i]), &name) {
                return true;
            }
            i = i + 1;
        }
        false
    }

    /// The first known detector that accepts the directory.
    fn matching_detector(&self, dir_name: &str, siblings: &Vec<(String, bool)>) -> (r: Option<Detector>)
        requires
            self.wf(),
        ensures
            match r {
                Some(d) => first_match(detector_table(), dir_name@, sibling_views(siblings@))
                    == Some(d@),
                None => first_match(detector_table(), dir_name@, sibling_views(siblings@)) is None,
            },
    {
        let name = chars_of(dir_name);
        let ghost sibs = sibling_views(siblings@);
        assert(detector_table().skip(0) =~= detector_table());
        let mut i: usize = 0;
        while i < self.detectors.len()
            invariant
                self.wf(),
                name@ == dir_name@,
                sibs == sibling_views(siblings@),
                i <= self.detectors.len(),
                first_match(detector_table(), dir_name@, sibs) == first_match(
                    detector_table().skip(i as int),
                    dir_name@,
                    sibs,
                ),
            decreases self.detectors.len() - i,
        {
            let d = self.detectors[i];
            let ghost rest = detector_table().skip(i as int);
            assert(rest[0] == d@);
            assert(rest.drop_first() =~= detector_table().skip(i + 1));
            if same_chars(&chars_of(d.dir_name), &name) {
                let ok = match d.marker_sibling {
                    None => true,
                    Some(m) => has_marker_sibling(siblings, m),
                };
                if ok {
                    return Some(d);
                }
            }
            i = i + 1;
        }
        None
    }

    /// Decide the fate of one directory that the walk reached at `path`, named
    /// `dir_name`, whose parent holds the entries `siblings`, each given as its
    /// name and whether it is a regular file (an empty list when the parent
    /// cannot be read or when `wants_siblings` says the entries do not matter). An excluded path is skipped; so is a directory that is
    /// never descended into; a directory that a detector accepts is recorded,
    /// under the first such detector, and skipped, as it is reported as one
    /// unit; any other directory is descended into.
    pub fn visit_dir(&mut self, path: &str, dir_name: &str, siblings: &Vec<(String, bool)>) -> (step:
        WalkStep)
        requires
            old(self).wf(),
        ensures
            final(self).wf(),
            final(self).exclude_patterns() == old(self).exclude_patterns(),
            is_excluded(old(self).exclude_patterns(), path@) ==> step == WalkStep::SkipSubtree
                && final(self).found() == old(self).found(),
            !is_excluded(old(self).exclude_patterns(), path@) && skip_descending_table().contains(
                dir_name@,
            ) ==> step == WalkStep::SkipSubtree && final(self).found() == old(self).found(),
            !is_excluded(old(self).exclude_patterns(), path@) && !skip_descending_table().contains(
                dir_name@,
            ) ==> match first_match(detector_table(), dir_name@, sibling_views(siblings@)) {
                Some(d) => step == WalkStep::SkipSubtree && final(self).found() == old(
                    self,
                ).found().push((d.label, d.regenerate_hint, path@)),
                None => step == WalkStep::Descend && final(self).found() == old(self).found(),
            },
    {
        if self.excluded(path) {
            return WalkStep::SkipSubtree;
        }
        if self.never_descended(dir_name) {
            return WalkStep::SkipSubtree;
        }
        match self.matching_detector(dir_name, siblings) {
            Some(d) => {
                let label = String::from_str(d.label);
                let hint = String::from_str(d.regenerate_hint);
                let p = String::from_str(path);
                let ghost before = self.found();
                self.candidates.push((label, hint, p));
                assert(self.found() =~= before.push((d@.label, d@.regenerate_hint, path@)));
                WalkStep::SkipSubtree
            },
            None => WalkStep::Descend,
        }
    }

    /// The candidates found (label, regenerate hint, path), in walk order.
    pub fn into_candidates(self) -> (c: Vec<(String, String, String)>)
        ensures
            c@.map_values(|x: (String, String, String)| candidate_view(x)) == self.found(),
    {
        self.candidates
    }
}

/// The total length of the files, each given as (length in bytes, seconds
/// since the epoch of its last modification if known).
pub open spec fn total_len(files: Seq<(u64, Option<u64>)>) -> int
    decreases files.len(),
{
    if files.len() == 0 {
        0
    } else {
        total_len(files.drop_last()) + files.last().0
    }
}

/// The later of two optional times; an unknown time yields to a known one.
pub open spec fn later(a: Option<u64>, b: Option<u64>) -> Option<u64> {
    match (a, b) {
        (None, y) => y,
        (x, None) => x,
        (Some(x), Some(y)) => Some(if x >= y { x } else { y }),
    }
}

/// The most recent known modification time among the files.
pub open spec fn newest(files: Seq<(u64, Option<u64>)>) -> Option<u64>
    decreases files.len(),
{
    if files.len() == 0 {
        None
    } else {
        later(newest(files.drop_last()), files.last().1)
    }
}

/// The total length of a prefix is at most the total length of the whole.
pub proof fn lemma_total_len_prefix(files: Seq<(u64, Option<u64>)>, i: int)
    requires
        0 <= i <= files.len(),
    ensures
        total_len(files.take(i)) <= total_len(files),
    decreases files.len() - i,
{
    if i < files.len() {
        lemma_total_len_prefix(files, i + 1);
        assert(files.take(i + 1).drop_last() =~= files.take(i));
    } else {
        assert(files.take(i) =~= files);
    }
}

/// The total size and the newest modification time of the regular files
/// under a directory, each file given as (length, modification time in
/// seconds since the epoch if known); `None` when the total does not fit in
/// 64 bits.
pub fn measure(files: &Vec<(u64, Option<u64>)>) -> (r: Option<(u64, Option<u64>)>)
    ensures
        r is None <==> total_len(files@) > u64::MAX,
        r matches Some(m) ==> m.0 == total_len(files@) && m.1 == newest(files@),
        r matches Some(m) ==> (m.1 is None <==> forall|i: int|
            0 <= i < files.len() ==> (#[trigger] files@[i]).1 is None),
        r matches Some(m) ==> (m.1 matches Some(t) ==> {
            &&& forall|i: int|
                0 <= i < files.len() ==> ((#[trigger] files@[i]).1 matches Some(u) ==> u <= t)
            &&& exists|i: int| 0 <= i < files.len() && (#[trigger] files@[i]).1 == Some(t)
        }),
{
    proof {
        lemma_newest_is_latest(files@);
    }
    let mut size: u64 = 0;
    let mut newest_secs: Option<u64> = None;
    let mut i: usize = 0;
    while i < files.len()
        invariant
            i <= files.len(),
            size == total_len(files@.take(i as int)),
            newest_secs == newest(files@.take(i as int)),
        decreases files.len() - i,
    {
        let (len, modified) = files[i];
        assert(files@.take(i + 1).drop_last() =~= files@.take(i as int));
        match size.checked_add(len) {
            Some(s) => {
                size = s;
            },
            None => {
                proof {
                    lemma_total_len_prefix(files@, i + 1);
                }
                return None;
            },
        }
        match modified {
            Some(secs) => {
                newest_secs = match newest_secs {
                    None => Some(secs),
                    Some(n) => Some(if n >= secs { n } else { secs }),
                };
            },
            None => {},
        }
        i = i + 1;
    }
    assert(files@.take(files.len() as int) =~= files@);
    Some((size, newest_secs))
}

/// The finding for a candidate (label, regenerate hint, path) whose regular
/// files are `files`; `None` when their total size does not fit in 64 bits.
pub fn size_finding(candidate: (String, String, String), files: &Vec<(u64, Option<u64>)>) -> (r:
    Option<Finding>)
    ensures
        r is None <==> total_len(files@) > u64::MAX,
        r matches Some(f) ==> {
            &&& f.label == candidate.0
            &&& f.regenerate_hint == candidate.1
            &&& f.path == candidate.2
            &&& f.size_bytes == total_len(files@)
            &&& f.last_modified_secs == newest(files@)
        },
{
    match measure(files) {
        Some((size_bytes, last_modified_secs)) => {
            let (label, regenerate_hint, path) = candidate;
            Some(Finding { path, label, size_bytes, last_modified_secs, regenerate_hint })
        },
        None => None,
    }
}

/// What a walk records for a directory comes from a detector of the list that
/// accepts it: the detector is for that directory name, and when it names a
/// marker, a regular file satisfying the marker is among the siblings.
pub proof fn lemma_match_is_justified(ds: Seq<DetectorView>, name: Seq<char>, siblings: Seq<(Seq<char>, bool)>)
    ensures
        first_match(ds, name, siblings) matches Some(d) ==> {
            &&& ds.contains(d)
            &&& d.dir_name == name
            &&& d.marker_sibling matches Some(m) ==> has_marker(siblings, m)
        },
        first_match(ds, name, siblings) is None ==> forall|i: int|
            0 <= i < ds.len() ==> !detector_applies(#[trigger] ds[i], name, siblings),
    decreases ds.len(),
{
    if ds.len() > 0 && !detector_applies(ds[0], name, siblings) {
        lemma_match_is_justified(ds.drop_first(), name, siblings);
        if let Some(d) = first_match(ds, name, siblings) {
            let k = choose|k: int| 0 <= k < ds.drop_first().len() && ds.drop_first()[k] == d;
            assert(ds[k + 1] == d);
        } else {
            assert forall|i: int| 0 <= i < ds.len() implies !detector_applies(
                #[trigger] ds[i],
                name,
                siblings,
            ) by {
                if i > 0 {
                    assert(ds[i] == ds.drop_first()[i - 1]);
                }
            }
        }
    }
}

/// When no detector for a directory name needs a marker, the names of the
/// directory's siblings do not change which detector accepts it.
pub proof fn lemma_siblings_irrelevant(
    ds: Seq<DetectorView>,
    name: Seq<char>,
    siblings_a: Seq<(Seq<char>, bool)>,
    siblings_b: Seq<(Seq<char>, bool)>,
)
    requires
        forall|i: int|
            0 <= i < ds.len() && #[trigger] ds[i].dir_name == name ==> ds[i].marker_sibling is None,
    ensures
        first_match(ds, name, siblings_a) == first_match(ds, name, siblings_b),
    decreases ds.len(),
{
    if ds.len() > 0 {
        assert forall|i: int|
            0 <= i < ds.drop_first().len() && #[trigger] ds.drop_first()[i].dir_name
                == name implies ds.drop_first()[i].marker_sibling is None by {
            assert(ds.drop_first()[i] == ds[i + 1]);
        }
        lemma_siblings_irrelevant(ds.drop_first(), name, siblings_a, siblings_b);
    }
}

/// A directory named "build" is taken for an artifact only when a Gradle build
/// file ("build.gradle" or "build.gradle.kts") stands beside it: a generic
/// build directory is never flagged.
pub proof fn lemma_build_needs_gradle_file(siblings: Seq<(Seq<char>, bool)>)
    ensures
        first_match(detector_table(), "build"@, siblings) is Some ==> has_marker(
            siblings,
            "build.gradle"@,
        ) || has_marker(siblings, "build.gradle.kts"@),
{
    reveal_strlit("build");
    reveal_strlit("node_modules");
    reveal_strlit("target");
    reveal_strlit(".venv");
    reveal_strlit("venv");
    reveal_strlit("__pycache__");
    reveal_strlit(".gradle");
    reveal_strlit("DerivedData");
    reveal_strlit("Pods");
    reveal_strlit("bin");
    reveal_strlit("obj");
    reveal_strlit(".next");
    reveal_strlit(".nuxt");
    reveal_strlit(".terraform");
    reveal_strlit("cmake-build-debug");
    reveal_strlit(".idea");
    reveal_strlit("vendor");
    reveal_strlit(".bundle");
    reveal_strlit("_build");
    reveal_strlit("deps");
    reveal_strlit(".stack-work");
    reveal_strlit("dist-newstyle");
    reveal_strlit("zig-cache");
    reveal_strlit("zig-out");
    reveal_strlit(".dart_tool");
    reveal_strlit(".build");
    let t = detector_table();
    assert(t[0].dir_name != "build"@) by { assert(t[0].dir_name.len() != "build"@.len()); }
    assert(t[1].dir_name != "build"@) by { assert(t[1].dir_name.len() != "build"@.len()); }
    assert(t[2].dir_name != "build"@) by { assert(t[2].dir_name[0] != "build"@[0]); }
    assert(t[3].dir_name != "build"@) by { assert(t[3].dir_name.len() != "build"@.len()); }
    assert(t[4].dir_name != "build"@) by { assert(t[4].dir_name.len() != "build"@.len()); }
    assert(t[5].dir_name != "build"@) by { assert(t[5].dir_name.len() != "build"@.len()); }
    assert(t[8].dir_name != "build"@) by { assert(t[8].dir_name.len() != "build"@.len()); }
    assert(t[9].dir_name != "build"@) by { assert(t[9].dir_name.len() != "build"@.len()); }
    assert(t[10].dir_name != "build"@) by { assert(t[10].dir_name.len() != "build"@.len()); }
    assert(t[11].dir_name != "build"@) by { assert(t[11].dir_name.len() != "build"@.len()); }
    assert(t[12].dir_name != "build"@) by { assert(t[12].dir_name.len() != "build"@.len()); }
    assert(t[13].dir_name != "build"@) by { assert(t[13].dir_name[0] != "build"@[0]); }
    assert(t[14].dir_name != "build"@) by { assert(t[14].dir_name[0] != "build"@[0]); }
    assert(t[15].dir_name != "build"@) by { assert(t[15].dir_name.len() != "build"@.len()); }
    assert(t[16].dir_name != "build"@) by { assert(t[16].dir_name.len() != "build"@.len()); }
    assert(t[17].dir_name != "build"@) by { assert(t[17].dir_name[0] != "build"@[0]); }
    assert(t[18].dir_name != "build"@) by { assert(t[18].dir_name.len() != "build"@.len()); }
    assert(t[19].dir_name != "build"@) by { assert(t[19].dir_name.len() != "build"@.len()); }
    assert(t[20].dir_name != "build"@) by { assert(t[20].dir_name.len() != "build"@.len()); }
    assert(t[21].dir_name != "build"@) by { assert(t[21].dir_name.len() != "build"@.len()); }
    assert(t[22].dir_name != "build"@) by { assert(t[22].dir_name.len() != "build"@.len()); }
    assert(t[23].dir_name != "build"@) by { assert(t[23].dir_name.len() != "build"@.len()); }
    assert(t[24].dir_name != "build"@) by { assert(t[24].dir_name.len() != "build"@.len()); }
    assert(t[25].dir_name != "build"@) by { assert(t[25].dir_name.len() != "build"@.len()); }
    assert(t[26].dir_name != "build"@) by { assert(t[26].dir_name.len() != "build"@.len()); }
    assert(t[27].dir_name != "build"@) by { assert(t[27].dir_name.len() != "build"@.len()); }
    assert(t[28].dir_name != "build"@) by { assert(t[28].dir_name.len() != "build"@.len()); }
    lemma_match_is_justified(t, "build"@, siblings);
    if let Some(d) = first_match(t, "build"@, siblings) {
        let k = choose|k: int| 0 <= k < t.len() && t[k] == d;
        assert(k == 6 || k == 7);
    }
}

/// When `Scanner::wants_siblings` says no for a directory name, the sibling
/// names handed to `Scanner::visit_dir` do not change which detector, if any,
/// accepts the directory.
pub proof fn lemma_unwanted_siblings_do_not_matter(
    name: Seq<char>,
    siblings_a: Seq<(Seq<char>, bool)>,
    siblings_b: Seq<(Seq<char>, bool)>,
)
    requires
        !exists|i: int|
            0 <= i < detector_table().len() && #[trigger] detector_table()[i].dir_name == name
                && detector_table()[i].marker_sibling is Some,
    ensures
        first_match(detector_table(), name, siblings_a) == first_match(
            detector_table(),
            name,
            siblings_b,
        ),
{
    lemma_siblings_irrelevant(detector_table(), name, siblings_a, siblings_b);
}

/// The findings for the candidates (label, regenerate hint, path), the i-th
/// measured from the i-th list of files, in the candidates' order; `None`
/// when some candidate's total size does not fit in 64 bits.
pub fn size_all(candidates: &Vec<(String, String, String)>, files: &Vec<Vec<(u64, Option<u64>)>>) -> (r:
    Option<Vec<Finding>>)
    requires
        candidates.len() == files.len(),
    ensures
        r is None <==> exists|i: int| 0 <= i < files.len() && total_len(#[trigger] files@[i]@) > u64::MAX,
        r matches Some(fs) ==> {
            &&& fs.len() == candidates.len()
            &&& forall|i: int|
                #![trigger fs@[i]]
                0 <= i < fs.len() ==> {
                    &&& fs@[i].label == candidates@[i].0
                    &&& fs@[i].regenerate_hint == candidates@[i].1
                    &&& fs@[i].path == candidates@[i].2
                    &&& fs@[i].size_bytes == total_len(files@[i]@)
                    &&& fs@[i].last_modified_secs == newest(files@[i]@)
                }
        },
{
    let mut out: Vec<Finding> = Vec::new();
    let mut i: usize = 0;
    while i < candidates.len()
        invariant
            candidates.len() == files.len(),
            i <= candidates.len(),
            out.len() == i,
            forall|j: int| 0 <= j < i ==> total_len(#[trigger] files@[j]@) <= u64::MAX,
            forall|j: int|
                #![trigger out@[j]]
                0 <= j < i ==> {
                    &&& out@[j].label == candidates@[j].0
                    &&& out@[j].regenerate_hint == candidates@[j].1
                    &&& out@[j].path == candidates@[j].2
                    &&& out@[j].size_bytes == total_len(files@[j]@)
                    &&& out@[j].last_modified_secs == newest(files@[j]@)
                },
        decreases candidates.len() - i,
    {
        let c = (candidates[i].0.clone(), candidates[i].1.clone(), candidates[i].2.clone());
        match size_finding(c, &files[i]) {
            Some(f) => {
                out.push(f);
            },
            None => {
                return None;
            },
        }
        i = i + 1;
    }
    Some(out)
}

/// The newest modification time is the latest of the files' known times: it
/// is unknown exactly when no file's time is known, and otherwise no file is
/// later and some file has it.
pub proof fn lemma_newest_is_latest(files: Seq<(u64, Option<u64>)>)
    ensures
        newest(files) is None <==> forall|i: int| 0 <= i < files.len() ==> (#[trigger] files[i]).1 is None,
        newest(files) matches Some(t) ==> {
            &&& forall|i: int| 0 <= i < files.len() ==> ((#[trigger] files[i]).1 matches Some(u) ==> u <= t)
            &&& exists|i: int| 0 <= i < files.len() && (#[trigger] files[i]).1 == Some(t)
        },
    decreases files.len(),
{
    if files.len() > 0 {
        let init = files.drop_last();
        lemma_newest_is_latest(init);
        let last = files.last();
        assert(last == files[files.len() - 1]);
        assert forall|i: int| 0 <= i < init.len() implies (#[trigger] init[i]) == files[i] by {}
        if newest(files) is None {
            assert forall|i: int| 0 <= i < files.len() implies (#[trigger] files[i]).1 is None by {
                if i < init.len() {
                    assert(init[i] == files[i]);
                }
            }
        } else {
            let t = newest(files)->0;
            assert forall|i: int| 0 <= i < files.len() implies ((#[trigger] files[i]).1 matches Some(u) ==> u <= t) by {
                if i < init.len() {
                    assert(init[i] == files[i]);
                }
            }
            match (newest(init), last.1) {
                (Some(x), Some(y)) => {
                    if x >= y {
                        let k = choose|k: int| 0 <= k < init.len() && (#[trigger] init[k]).1 == Some(x);
                        assert(files[k] == init[k]);
                    }
                },
                (Some(x), None) => {
                    let k = choose|k: int| 0 <= k < init.len() && (#[trigger] init[k]).1 == Some(x);
                    assert(files[k] == init[k]);
                },
                _ => {},
            }
        }
        if forall|i: int| 0 <= i < files.len() ==> (#[trigger] files[i]).1 is None {
            assert forall|i: int| 0 <= i < init.len() implies (#[trigger] init[i]).1 is None by {
                assert(files[i] == init[i]);
            }
        }
    }
}

/// Sizes add up: the total of two lists of files, one after the other, is the
/// sum of their totals, and a single file's total is its length.
pub proof fn lemma_total_len_adds(a: Seq<(u64, Option<u64>)>, b: Seq<(u64, Option<u64>)>)
    ensures
        total_len(a + b) == total_len(a) + total_len(b),
        forall|x: (u64, Option<u64>)| #[trigger] total_len(seq![x]) == x.0,
    decreases b.len(),
{
    assert forall|x: (u64, Option<u64>)| #[trigger] total_len(seq![x]) == x.0 by {
        let one = seq![x];
        assert(one.drop_last() =~= Seq::<(u64, Option<u64>)>::empty());
        assert(total_len(one.drop_last()) == 0);
        assert(one.last() == x);
    }
    if b.len() == 0 {
        assert(a + b =~= a);
    } else {
        lemma_total_len_adds(a, b.drop_last());
        assert((a + b).drop_last() =~= a + b.drop_last());
        assert((a + b).last() == b.last());
    }
}

/// An extension marker (".csproj") is met by a regular file exactly when the
/// file's name is some non-empty base followed by the marker: "MyApp.csproj"
/// and "Contoso.Web.csproj" meet it, ".csproj" alone does not.
pub proof fn lemma_extension_marker_rule(name: Seq<char>, marker: Seq<char>)
    requires
        is_extension_marker(marker),
    ensures
        has_marker(seq![(name, true)], marker) <==> exists|base: Seq<char>|
            base.len() > 0 && name == #[trigger] (base + marker),
{
    let one = seq![(name, true)];
    if has_marker(one, marker) {
        assert(one[0] == (name, true));
        let base = name.subrange(0, name.len() - marker.len());
        assert(name =~= base + marker);
        if base.len() == 0 {
            assert(name =~= marker);
        }
    }
    if exists|base: Seq<char>| base.len() > 0 && name == #[trigger] (base + marker) {
        let base = choose|base: Seq<char>| base.len() > 0 && name == #[trigger] (base + marker);
        assert(name.subrange(name.len() - marker.len(), name.len() as int) =~= marker);
        assert(name.len() != marker.len());
        assert(one[0].1 && marker_matches(one[0].0, marker));
    }
}

/// Any other marker ("Cargo.toml") is met by a regular file of exactly that
/// name.
pub proof fn lemma_exact_marker_rule(name: Seq<char>, marker: Seq<char>)
    requires
        !is_extension_marker(marker),
    ensures
        has_marker(seq![(name, true)], marker) <==> name == marker,
{
    let one = seq![(name, true)];
    if name == marker {
        assert(one[0].1 && marker_matches(one[0].0, marker));
    }
}

/// A directory never meets a marker, whatever its name.
pub proof fn lemma_directories_never_meet_markers(name: Seq<char>, marker: Seq<char>)
    ensures
        !has_marker(seq![(name, false)], marker),
{
    assert(seq![(name, false)][0].1 == false);
}

/// A list of entries meets a marker exactly when one of its entries, alone,
/// does.
pub proof fn lemma_marker_met_by_one_entry(siblings: Seq<(Seq<char>, bool)>, marker: Seq<char>)
    ensures
        has_marker(siblings, marker) <==> exists|i: int|
            0 <= i < siblings.len() && #[trigger] has_marker(seq![siblings[i]], marker),
{
    if has_marker(siblings, marker) {
        let i = choose|i: int|
            0 <= i < siblings.len() && siblings[i].1 && #[trigger] marker_matches(siblings[i].0, marker);
        assert(seq![siblings[i]][0] == siblings[i]);
        assert(has_marker(seq![siblings[i]], marker));
    }
    if exists|i: int| 0 <= i < siblings.len() && #[trigger] has_marker(seq![siblings[i]], marker) {
        let i = choose|i: int| 0 <= i < siblings.len() && #[trigger] has_marker(seq![siblings[i]], marker);
        let one = seq![siblings[i]];
        let k = choose|k: int| 0 <= k < one.len() && one[k].1 && #[trigger] marker_matches(one[k].0, marker);
        assert(k == 0);
        assert(one[0] == siblings[i]);
        assert(siblings[i].1 && marker_matches(siblings[i].0, marker));
    }
}

/// `first_match` picks the first detector of the list that accepts the
/// directory: it is `None` exactly when none does.
pub proof fn lemma_first_match_is_first(ds: Seq<DetectorView>, name: Seq<char>, siblings: Seq<(Seq<char>, bool)>)
    ensures
        first_match(ds, name, siblings) is None ==> forall|j: int|
            0 <= j < ds.len() ==> !detector_applies(#[trigger] ds[j], name, siblings),
        first_match(ds, name, siblings) matches Some(d) ==> exists|k: int|
            0 <= k < ds.len() && ds[k] == d && detector_applies(ds[k], name, siblings) && forall|j: int|
                0 <= j < k ==> !detector_applies(#[trigger] ds[j], name, siblings),
    decreases ds.len(),
{
    if ds.len() > 0 {
        let rest = ds.drop_first();
        lemma_first_match_is_first(rest, name, siblings);
        if detector_applies(ds[0], name, siblings) {
            assert(forall|j: int| 0 <= j < 0 ==> !detector_applies(#[trigger] ds[j], name, siblings));
        } else {
            assert forall|j: int| 0 < j < ds.len() implies ds[j] == rest[j - 1] by {}
            if let Some(d) = first_match(ds, name, siblings) {
                let k = choose|k: int|
                    0 <= k < rest.len() && rest[k] == d && detector_applies(rest[k], name, siblings)
                        && forall|j: int| 0 <= j < k ==> !detector_applies(#[trigger] rest[j], name, siblings);
                assert(ds[k + 1] == d);
                assert forall|j: int| 0 <= j < k + 1 implies !detector_applies(#[trigger] ds[j], name, siblings) by {
                    if j > 0 {
                        assert(ds[j] == rest[j - 1]);
                    }
                }
            }
        }
    }
}

/// Only the detectors for a directory's name matter: the first match over the
/// whole list is the first match over those of its positions, `idx` in
/// increasing order, that hold every detector for that name.
pub proof fn lemma_first_match_among(
    ds: Seq<DetectorView>,
    name: Seq<char>,
    siblings: Seq<(Seq<char>, bool)>,
    idx: Seq<int>,
)
    requires
        forall|a: int, b: int| #![trigger idx[a], idx[b]] 0 <= a < b < idx.len() ==> idx[a] < idx[b],
        forall|a: int| 0 <= a < idx.len() ==> 0 <= #[trigger] idx[a] < ds.len(),
        forall|j: int| 0 <= j < ds.len() && (#[trigger] ds[j]).dir_name == name ==> idx.contains(j),
    ensures
        first_match(ds, name, siblings) == first_match(
            Seq::new(idx.len(), |a: int| ds[idx[a]]),
            name,
            siblings,
        ),
{
    let sub = Seq::new(idx.len(), |a: int| ds[idx[a]]);
    lemma_first_match_is_first(ds, name, siblings);
    lemma_first_match_is_first(sub, name, siblings);
    match first_match(ds, name, siblings) {
        None => {
            if let Some(d2) = first_match(sub, name, siblings) {
                let a = choose|a: int|
                    0 <= a < sub.len() && sub[a] == d2 && detector_applies(sub[a], name, siblings)
                        && forall|j: int| 0 <= j < a ==> !detector_applies(#[trigger] sub[j], name, siblings);
                assert(!detector_applies(ds[idx[a]], name, siblings));
            }
        },
        Some(d) => {
            let k = choose|k: int|
                0 <= k < ds.len() && ds[k] == d && detector_applies(ds[k], name, siblings) && forall|j: int|
                    0 <= j < k ==> !detector_applies(#[trigger] ds[j], name, siblings);
            assert(ds[k].dir_name == name);
            assert(idx.contains(k));
            let a = choose|a: int| 0 <= a < idx.len() && idx[a] == k;
            assert(sub[a] == ds[k]);
            match first_match(sub, name, siblings) {
                None => {
                    assert(!detector_applies(sub[a], name, siblings));
                },
                Some(d2) => {
                    let a2 = choose|a2: int|
                        0 <= a2 < sub.len() && sub[a2] == d2 && detector_applies(sub[a2], name, siblings)
                            && forall|j: int| 0 <= j < a2 ==> !detector_applies(#[trigger] sub[j], name, siblings);
                    if a2 < a {
                        assert(idx[a2] < idx[a]);
                        assert(!detector_applies(ds[idx[a2]], name, siblings));
                    } else if a2 > a {
                        assert(!detector_applies(sub[a], name, siblings));
                    }
                },
            }
        },
    }
}

} // verus!
