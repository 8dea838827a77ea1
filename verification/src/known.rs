//! What the known detectors make of each directory name, stated entry by
//! entry in terms of the files beside the directory.

use vstd::prelude::*;
use crate::detectors::{DetectorView, detector_table, entry};
use crate::scanner::{
    detector_applies, first_match, has_marker, is_extension_marker, lemma_first_match_among,
    lemma_first_match_is_first, marker_matches,
};
use crate::text::is_suffix_of;

verus! {

/// A regular file named `name` is among the entries `siblings`.
pub open spec fn file_named(siblings: Seq<(Seq<char>, bool)>, name: Seq<char>) -> bool {
    exists|i: int| 0 <= i < siblings.len() && siblings[i] == (name, true)
}

/// A regular file whose name is a non-empty base followed by `ext` is among
/// the entries `siblings`.
pub open spec fn file_with_extension(siblings: Seq<(Seq<char>, bool)>, ext: Seq<char>) -> bool {
    exists|i: int, base: Seq<char>|
        #![trigger siblings[i], base + ext]
        0 <= i < siblings.len() && base.len() > 0 && siblings[i] == (base + ext, true)
}

proof fn lemma_exact_marker_files(siblings: Seq<(Seq<char>, bool)>, m: Seq<char>)
    requires
        m.len() > 0,
        m[0] != '.',
    ensures
        has_marker(siblings, m) <==> file_named(siblings, m),
{
    assert(!is_extension_marker(m));
    if has_marker(siblings, m) {
        let i = choose|i: int| 0 <= i < siblings.len() && siblings[i].1 && #[trigger] marker_matches(siblings[i].0, m);
        assert(siblings[i] == (m, true));
    }
    if file_named(siblings, m) {
        let i = choose|i: int| 0 <= i < siblings.len() && siblings[i] == (m, true);
        assert(siblings[i].1 && marker_matches(siblings[i].0, m));
    }
}

proof fn lemma_extension_marker_files(siblings: Seq<(Seq<char>, bool)>, m: Seq<char>)
    requires
        is_extension_marker(m),
    ensures
        has_marker(siblings, m) <==> file_with_extension(siblings, m),
{
    if has_marker(siblings, m) {
        let i = choose|i: int| 0 <= i < siblings.len() && siblings[i].1 && #[trigger] marker_matches(siblings[i].0, m);
        let name = siblings[i].0;
        let base = name.subrange(0, name.len() - m.len());
        assert(name =~= base + m);
        if base.len() == 0 {
            assert(name =~= m);
        }
        assert(siblings[i] == (base + m, true));
    }
    if file_with_extension(siblings, m) {
        let (i, base) = choose|i: int, base: Seq<char>|
            #![trigger siblings[i], base + m]
            0 <= i < siblings.len() && base.len() > 0 && siblings[i] == (base + m, true);
        let name = base + m;
        assert(name.subrange(name.len() - m.len(), name.len() as int) =~= m);
        assert(is_suffix_of(m, name));
        assert(name.len() != m.len());
        assert(siblings[i].1 && marker_matches(siblings[i].0, m));
    }
}

proof fn lemma_csproj_is_extension()
    ensures
        is_extension_marker(".csproj"@),
{
    reveal_strlit(".csproj");
    assert(".csproj"@.drop_first() =~= seq!['c', 's', 'p', 'r', 'o', 'j']);
    assert(!seq!['c', 's', 'p', 'r', 'o', 'j'].contains('.'));
}

/// A directory named "node_modules" is always recorded as "Node.js".
pub proof fn lemma_detects_node_modules(siblings: Seq<(Seq<char>, bool)>)
    ensures
        first_match(detector_table(), "node_modules"@, siblings) == Some(entry("Node.js"@, "node_modules"@, None, "npm install / yarn / pnpm install"@)),
{
    let t = detector_table();
    reveal_strlit("node_modules");
    reveal_strlit("target");
    reveal_strlit(".venv");
    reveal_strlit("venv");
    reveal_strlit("__pycache__");
    reveal_strlit(".gradle");
    reveal_strlit("build");
    reveal_strlit("DerivedData");
    reveal_strlit("Pods");
    reveal_strlit("bin");
    reveal_strlit("obj");
    reveal_strlit(".next");
    reveal_strlit(".nuxt");
    reveal_strlit(".terraform");
    reveal_strlit("cmake-build-debug");
    reveal_strlit(".idea");
    reveal_strlit("vendor");
    reveal_strlit(".bundle");
    reveal_strlit("_build");
    reveal_strlit("deps");
    reveal_strlit(".stack-work");
    reveal_strlit("dist-newstyle");
    reveal_strlit("zig-cache");
    reveal_strlit("zig-out");
    reveal_strlit(".dart_tool");
    reveal_strlit(".build");
    let idx = seq![0int];
    assert forall|j: int| 0 <= j < t.len() && (#[trigger] t[j]).dir_name == "node_modules"@ implies idx.contains(j) by {
        if j == 0 {
            assert(idx[0] == 0);
        } else if j == 1 {
            assert(t[1].dir_name.len() != "node_modules"@.len());
        } else if j == 2 {
            assert(t[2].dir_name.len() != "node_modules"@.len());
        } else if j == 3 {
            assert(t[3].dir_name.len() != "node_modules"@.len());
        } else if j == 4 {
            assert(t[4].dir_name.len() != "node_modules"@.len());
        } else if j == 5 {
            assert(t[5].dir_name.len() != "node_modules"@.len());
        } else if j == 6 {
            assert(t[6].dir_name.len() != "node_modules"@.len());
        } else if j == 7 {
            assert(t[7].dir_name.len() != "node_modules"@.len());
        } else if j == 8 {
            assert(t[8].dir_name.len() != "node_modules"@.len());
        } else if j == 9 {
            assert(t[9].dir_name.len() != "node_modules"@.len());
        } else if j == 10 {
            assert(t[10].dir_name.len() != "node_modules"@.len());
        } else if j == 11 {
            assert(t[11].dir_name.len() != "node_modules"@.len());
        } else if j == 12 {
            assert(t[12].dir_name.len() != "node_modules"@.len());
        } else if j == 13 {
            assert(t[13].dir_name.len() != "node_modules"@.len());
        } else if j == 14 {
            assert(t[14].dir_name.len() != "node_modules"@.len());
        } else if j == 15 {
            assert(t[15].dir_name.len() != "node_modules"@.len());
        } else if j == 16 {
            assert(t[16].dir_name.len() != "node_modules"@.len());
        } else if j == 17 {
            assert(t[17].dir_name.len() != "node_modules"@.len());
        } else if j == 18 {
            assert(t[18].dir_name.len() != "node_modules"@.len());
        } else if j == 19 {
            assert(t[19].dir_name.len() != "node_modules"@.len());
        } else if j == 20 {
            assert(t[20].dir_name.len() != "node_modules"@.len());
        } else if j == 21 {
            assert(t[21].dir_name.len() != "node_modules"@.len());
        } else if j == 22 {
            assert(t[22].dir_name.len() != "node_modules"@.len());
        } else if j == 23 {
            assert(t[23].dir_name.len() != "node_modules"@.len());
        } else if j == 24 {
            assert(t[24].dir_name.len() != "node_modules"@.len());
        } else if j == 25 {
            assert(t[25].dir_name.len() != "node_modules"@.len());
        } else if j == 26 {
            assert(t[26].dir_name.len() != "node_modules"@.len());
        } else if j == 27 {
            assert(t[27].dir_name.len() != "node_modules"@.len());
        } else if j == 28 {
            assert(t[28].dir_name.len() != "node_modules"@.len());
        }
    }
    lemma_first_match_among(t, "node_modules"@, siblings, idx);
    let sub = Seq::new(idx.len(), |a: int| t[idx[a]]);
    assert(sub =~= seq![entry("Node.js"@, "node_modules"@, None, "npm install / yarn / pnpm install"@)]);
    reveal_with_fuel(first_match, 2);
}

/// A directory named "target" is recorded as "Rust" when a file named
/// "Cargo.toml" is beside it; failing that, it is recorded as "Maven" when a
/// file named "pom.xml" is beside it; otherwise it is not recorded.
pub proof fn lemma_detects_target(siblings: Seq<(Seq<char>, bool)>)
    ensures
        first_match(detector_table(), "target"@, siblings) == if file_named(siblings, "Cargo.toml"@) {
                Some(entry("Rust"@, "target"@, Some("Cargo.toml"@), "cargo build"@))
            } else if file_named(siblings, "pom.xml"@) {
                Some(entry("Maven"@, "target"@, Some("pom.xml"@), "mvn package"@))
            } else {
                None
            },
{
    let t = detector_table();
    reveal_strlit("node_modules");
    reveal_strlit("target");
    reveal_strlit(".venv");
    reveal_strlit("venv");
    reveal_strlit("__pycache__");
    reveal_strlit(".gradle");
    reveal_strlit("build");
    reveal_strlit("DerivedData");
    reveal_strlit("Pods");
    reveal_strlit("bin");
    reveal_strlit("obj");
    reveal_strlit(".next");
    reveal_strlit(".nuxt");
    reveal_strlit(".terraform");
    reveal_strlit("cmake-build-debug");
    reveal_strlit(".idea");
    reveal_strlit("vendor");
    reveal_strlit(".bundle");
    reveal_strlit("_build");
    reveal_strlit("deps");
    reveal_strlit(".stack-work");
    reveal_strlit("dist-newstyle");
    reveal_strlit("zig-cache");
    reveal_strlit("zig-out");
    reveal_strlit(".dart_tool");
    reveal_strlit(".build");
    let idx = seq![1int, 8int];
    assert forall|j: int| 0 <= j < t.len() && (#[trigger] t[j]).dir_name == "target"@ implies idx.contains(j) by {
        if j == 0 {
            assert(t[0].dir_name.len() != "target"@.len());
        } else if j == 1 {
            assert(idx[0] == 1);
        } else if j == 2 {
            assert(t[2].dir_name.len() != "target"@.len());
        } else if j == 3 {
            assert(t[3].dir_name.len() != "target"@.len());
        } else if j == 4 {
            assert(t[4].dir_name.len() != "target"@.len());
        } else if j == 5 {
            assert(t[5].dir_name.len() != "target"@.len());
        } else if j == 6 {
            assert(t[6].dir_name.len() != "target"@.len());
        } else if j == 7 {
            assert(t[7].dir_name.len() != "target"@.len());
        } else if j == 8 {
            assert(idx[1] == 8);
        } else if j == 9 {
            assert(t[9].dir_name.len() != "target"@.len());
        } else if j == 10 {
            assert(t[10].dir_name.len() != "target"@.len());
        } else if j == 11 {
            assert(t[11].dir_name.len() != "target"@.len());
        } else if j == 12 {
            assert(t[12].dir_name.len() != "target"@.len());
        } else if j == 13 {
            assert(t[13].dir_name.len() != "target"@.len());
        } else if j == 14 {
            assert(t[14].dir_name.len() != "target"@.len());
        } else if j == 15 {
            assert(t[15].dir_name.len() != "target"@.len());
        } else if j == 16 {
            assert(t[16].dir_name.len() != "target"@.len());
        } else if j == 17 {
            assert(t[17].dir_name.len() != "target"@.len());
        } else if j == 18 {
            assert(t[18].dir_name[0] != "target"@[0]);
        } else if j == 19 {
            assert(t[19].dir_name[0] != "target"@[0]);
        } else if j == 20 {
            assert(t[20].dir_name.len() != "target"@.len());
        } else if j == 21 {
            assert(t[21].dir_name[0] != "target"@[0]);
        } else if j == 22 {
            assert(t[22].dir_name.len() != "target"@.len());
        } else if j == 23 {
            assert(t[23].dir_name.len() != "target"@.len());
        } else if j == 24 {
            assert(t[24].dir_name.len() != "target"@.len());
        } else if j == 25 {
            assert(t[25].dir_name.len() != "target"@.len());
        } else if j == 26 {
            assert(t[26].dir_name.len() != "target"@.len());
        } else if j == 27 {
            assert(t[27].dir_name.len() != "target"@.len());
        } else if j == 28 {
            assert(t[28].dir_name[0] != "target"@[0]);
        }
    }
    lemma_first_match_among(t, "target"@, siblings, idx);
    let sub = Seq::new(idx.len(), |a: int| t[idx[a]]);
    assert(sub =~= seq![entry("Rust"@, "target"@, Some("Cargo.toml"@), "cargo build"@), entry("Maven"@, "target"@, Some("pom.xml"@), "mvn package"@)]);
    reveal_strlit("Cargo.toml");
    lemma_exact_marker_files(siblings, "Cargo.toml"@);
    reveal_strlit("pom.xml");
    lemma_exact_marker_files(siblings, "pom.xml"@);
    reveal_with_fuel(first_match, 3);
}

/// A directory named ".venv" is always recorded as "Python venv".
pub proof fn lemma_detects_dot_venv(siblings: Seq<(Seq<char>, bool)>)
    ensures
        first_match(detector_table(), ".venv"@, siblings) == Some(entry("Python venv"@, ".venv"@, None, "python -m venv .venv && pip install -r requirements.txt"@)),
{
    let t = detector_table();
    reveal_strlit("node_modules");
    reveal_strlit("target");
    reveal_strlit(".venv");
    reveal_strlit("venv");
    reveal_strlit("__pycache__");
    reveal_strlit(".gradle");
    reveal_strlit("build");
    reveal_strlit("DerivedData");
    reveal_strlit("Pods");
    reveal_strlit("bin");
    reveal_strlit("obj");
    reveal_strlit(".next");
    reveal_strlit(".nuxt");
    reveal_strlit(".terraform");
    reveal_strlit("cmake-build-debug");
    reveal_strlit(".idea");
    reveal_strlit("vendor");
    reveal_strlit(".bundle");
    reveal_strlit("_build");
    reveal_strlit("deps");
    reveal_strlit(".stack-work");
    reveal_strlit("dist-newstyle");
    reveal_strlit("zig-cache");
    reveal_strlit("zig-out");
    reveal_strlit(".dart_tool");
    reveal_strlit(".build");
    let idx = seq![2int];
    assert forall|j: int| 0 <= j < t.len() && (#[trigger] t[j]).dir_name == ".venv"@ implies idx.contains(j) by {
        if j == 0 {
            assert(t[0].dir_name.len() != ".venv"@.len());
        } else if j == 1 {
            assert(t[1].dir_name.len() != ".venv"@.len());
        } else if j == 2 {
            assert(idx[0] == 2);
        } else if j == 3 {
            assert(t[3].dir_name.len() != ".venv"@.len());
        } else if j == 4 {
            assert(t[4].dir_name.len() != ".venv"@.len());
        } else if j == 5 {
            assert(t[5].dir_name.len() != ".venv"@.len());
        } else if j == 6 {
            assert(t[6].dir_name[0] != ".venv"@[0]);
        } else if j == 7 {
            assert(t[7].dir_name[0] != ".venv"@[0]);
        } else if j == 8 {
            assert(t[8].dir_name.len() != ".venv"@.len());
        } else if j == 9 {
            assert(t[9].dir_name.len() != ".venv"@.len());
        } else if j == 10 {
            assert(t[10].dir_name.len() != ".venv"@.len());
        } else if j == 11 {
            assert(t[11].dir_name.len() != ".venv"@.len());
        } else if j == 12 {
            assert(t[12].dir_name.len() != ".venv"@.len());
        } else if j == 13 {
            assert(t[13].dir_name[1] != ".venv"@[1]);
        } else if j == 14 {
            assert(t[14].dir_name[1] != ".venv"@[1]);
        } else if j == 15 {
            assert(t[15].dir_name.len() != ".venv"@.len());
        } else if j == 16 {
            assert(t[16].dir_name.len() != ".venv"@.len());
        } else if j == 17 {
            assert(t[17].dir_name[1] != ".venv"@[1]);
        } else if j == 18 {
            assert(t[18].dir_name.len() != ".venv"@.len());
        } else if j == 19 {
            assert(t[19].dir_name.len() != ".venv"@.len());
        } else if j == 20 {
            assert(t[20].dir_name.len() != ".venv"@.len());
        } else if j == 21 {
            assert(t[21].dir_name.len() != ".venv"@.len());
        } else if j == 22 {
            assert(t[22].dir_name.len() != ".venv"@.len());
        } else if j == 23 {
            assert(t[23].dir_name.len() != ".venv"@.len());
        } else if j == 24 {
            assert(t[24].dir_name.len() != ".venv"@.len());
        } else if j == 25 {
            assert(t[25].dir_name.len() != ".venv"@.len());
        } else if j == 26 {
            assert(t[26].dir_name.len() != ".venv"@.len());
        } else if j == 27 {
            assert(t[27].dir_name.len() != ".venv"@.len());
        } else if j == 28 {
            assert(t[28].dir_name.len() != ".venv"@.len());
        }
    }
    lemma_first_match_among(t, ".venv"@, siblings, idx);
    let sub = Seq::new(idx.len(), |a: int| t[idx[a]]);
    assert(sub =~= seq![entry("Python venv"@, ".venv"@, None, "python -m venv .venv && pip install -r requirements.txt"@)]);
    reveal_with_fuel(first_match, 2);
}

/// A directory named "venv" is always recorded as "Python venv".
pub proof fn lemma_detects_venv(siblings: Seq<(Seq<char>, bool)>)
    ensures
        first_match(detector_table(), "venv"@, siblings) == Some(entry("Python venv"@, "venv"@, None, "python -m venv venv && pip install -r requirements.txt"@)),
{
    let t = detector_table();
    reveal_strlit("node_modules");
    reveal_strlit("target");
    reveal_strlit(".venv");
    reveal_strlit("venv");
    reveal_strlit("__pycache__");
    reveal_strlit(".gradle");
    reveal_strlit("build");
    reveal_strlit("DerivedData");
    reveal_strlit("Pods");
    reveal_strlit("bin");
    reveal_strlit("obj");
    reveal_strlit(".next");
    reveal_strlit(".nuxt");
    reveal_strlit(".terraform");
    reveal_strlit("cmake-build-debug");
    reveal_strlit(".idea");
    reveal_strlit("vendor");
    reveal_strlit(".bundle");
    reveal_strlit("_build");
    reveal_strlit("deps");
    reveal_strlit(".stack-work");
    reveal_strlit("dist-newstyle");
    reveal_strlit("zig-cache");
    reveal_strlit("zig-out");
    reveal_strlit(".dart_tool");
    reveal_strlit(".build");
    let idx = seq![3int];
    assert forall|j: int| 0 <= j < t.len() && (#[trigger] t[j]).dir_name == "venv"@ implies idx.contains(j) by {
        if j == 0 {
            assert(t[0].dir_name.len() != "venv"@.len());
        } else if j == 1 {
            assert(t[1].dir_name.len() != "venv"@.len());
        } else if j == 2 {
            assert(t[2].dir_name.len() != "venv"@.len());
        } else if j == 3 {
            assert(idx[0] == 3);
        } else if j == 4 {
            assert(t[4].dir_name.len() != "venv"@.len());
        } else if j == 5 {
            assert(t[5].dir_name.len() != "venv"@.len());
        } else if j == 6 {
            assert(t[6].dir_name.len() != "venv"@.len());
        } else if j == 7 {
            assert(t[7].dir_name.len() != "venv"@.len());
        } else if j == 8 {
            assert(t[8].dir_name.len() != "venv"@.len());
        } else if j == 9 {
            assert(t[9].dir_name.len() != "venv"@.len());
        } else if j == 10 {
            assert(t[10].dir_name[0] != "venv"@[0]);
        } else if j == 11 {
            assert(t[11].dir_name.len() != "venv"@.len());
        } else if j == 12 {
            assert(t[12].dir_name.len() != "venv"@.len());
        } else if j == 13 {
            assert(t[13].dir_name.len() != "venv"@.len());
        } else if j == 14 {
            assert(t[14].dir_name.len() != "venv"@.len());
        } else if j == 15 {
            assert(t[15].dir_name.len() != "venv"@.len());
        } else if j == 16 {
            assert(t[16].dir_name.len() != "venv"@.len());
        } else if j == 17 {
            assert(t[17].dir_name.len() != "venv"@.len());
        } else if j == 18 {
            assert(t[18].dir_name.len() != "venv"@.len());
        } else if j == 19 {
            assert(t[19].dir_name.len() != "venv"@.len());
        } else if j == 20 {
            assert(t[20].dir_name.len() != "venv"@.len());
        } else if j == 21 {
            assert(t[21].dir_name.len() != "venv"@.len());
        } else if j == 22 {
            assert(t[22].dir_name[0] != "venv"@[0]);
        } else if j == 23 {
            assert(t[23].dir_name.len() != "venv"@.len());
        } else if j == 24 {
            assert(t[24].dir_name.len() != "venv"@.len());
        } else if j == 25 {
            assert(t[25].dir_name.len() != "venv"@.len());
        } else if j == 26 {
            assert(t[26].dir_name.len() != "venv"@.len());
        } else if j == 27 {
            assert(t[27].dir_name.len() != "venv"@.len());
        } else if j == 28 {
            assert(t[28].dir_name.len() != "venv"@.len());
        }
    }
    lemma_first_match_among(t, "venv"@, siblings, idx);
    let sub = Seq::new(idx.len(), |a: int| t[idx[a]]);
    assert(sub =~= seq![entry("Python venv"@, "venv"@, None, "python -m venv venv && pip install -r requirements.txt"@)]);
    reveal_with_fuel(first_match, 2);
}

/// A directory named "__pycache__" is always recorded as "Python cache".
pub proof fn lemma_detects_pycache(siblings: Seq<(Seq<char>, bool)>)
    ensures
        first_match(detector_table(), "__pycache__"@, siblings) == Some(entry("Python cache"@, "__pycache__"@, None, "regenerated automatically on next run"@)),
{
    let t = detector_table();
    reveal_strlit("node_modules");
    reveal_strlit("target");
    reveal_strlit(".venv");
    reveal_strlit("venv");
    reveal_strlit("__pycache__");
    reveal_strlit(".gradle");
    reveal_strlit("build");
    reveal_strlit("DerivedData");
    reveal_strlit("Pods");
    reveal_strlit("bin");
    reveal_strlit("obj");
    reveal_strlit(".next");
    reveal_strlit(".nuxt");
    reveal_strlit(".terraform");
    reveal_strlit("cmake-build-debug");
    reveal_strlit(".idea");
    reveal_strlit("vendor");
    reveal_strlit(".bundle");
    reveal_strlit("_build");
    reveal_strlit("deps");
    reveal_strlit(".stack-work");
    reveal_strlit("dist-newstyle");
    reveal_strlit("zig-cache");
    reveal_strlit("zig-out");
    reveal_strlit(".dart_tool");
    reveal_strlit(".build");
    let idx = seq![4int];
    assert forall|j: int| 0 <= j < t.len() && (#[trigger] t[j]).dir_name == "__pycache__"@ implies idx.contains(j) by {
        if j == 0 {
            assert(t[0].dir_name.len() != "__pycache__"@.len());
        } else if j == 1 {
            assert(t[1].dir_name.len() != "__pycache__"@.len());
        } else if j == 2 {
            assert(t[2].dir_name.len() != "__pycache__"@.len());
        } else if j == 3 {
            assert(t[3].dir_name.len() != "__pycache__"@.len());
        } else if j == 4 {
            assert(idx[0] == 4);
        } else if j == 5 {
            assert(t[5].dir_name.len() != "__pycache__"@.len());
        } else if j == 6 {
            assert(t[6].dir_name.len() != "__pycache__"@.len());
        } else if j == 7 {
            assert(t[7].dir_name.len() != "__pycache__"@.len());
        } else if j == 8 {
            assert(t[8].dir_name.len() != "__pycache__"@.len());
        } else if j == 9 {
            assert(t[9].dir_name[0] != "__pycache__"@[0]);
        } else if j == 10 {
            assert(t[10].dir_name.len() != "__pycache__"@.len());
        } else if j == 11 {
            assert(t[11].dir_name.len() != "__pycache__"@.len());
        } else if j == 12 {
            assert(t[12].dir_name.len() != "__pycache__"@.len());
        } else if j == 13 {
            assert(t[13].dir_name.len() != "__pycache__"@.len());
        } else if j == 14 {
            assert(t[14].dir_name.len() != "__pycache__"@.len());
        } else if j == 15 {
            assert(t[15].dir_name.len() != "__pycache__"@.len());
        } else if j == 16 {
            assert(t[16].dir_name.len() != "__pycache__"@.len());
        } else if j == 17 {
            assert(t[17].dir_name.len() != "__pycache__"@.len());
        } else if j == 18 {
            assert(t[18].dir_name.len() != "__pycache__"@.len());
        } else if j == 19 {
            assert(t[19].dir_name.len() != "__pycache__"@.len());
        } else if j == 20 {
            assert(t[20].dir_name.len() != "__pycache__"@.len());
        } else if j == 21 {
            assert(t[21].dir_name.len() != "__pycache__"@.len());
        } else if j == 22 {
            assert(t[22].dir_name.len() != "__pycache__"@.len());
        } else if j == 23 {
            assert(t[23].dir_name[0] != "__pycache__"@[0]);
        } else if j == 24 {
            assert(t[24].dir_name.len() != "__pycache__"@.len());
        } else if j == 25 {
            assert(t[25].dir_name.len() != "__pycache__"@.len());
        } else if j == 26 {
            assert(t[26].dir_name.len() != "__pycache__"@.len());
        } else if j == 27 {
            assert(t[27].dir_name.len() != "__pycache__"@.len());
        } else if j == 28 {
            assert(t[28].dir_name.len() != "__pycache__"@.len());
        }
    }
    lemma_first_match_among(t, "__pycache__"@, siblings, idx);
    let sub = Seq::new(idx.len(), |a: int| t[idx[a]]);
    assert(sub =~= seq![entry("Python cache"@, "__pycache__"@, None, "regenerated automatically on next run"@)]);
    reveal_with_fuel(first_match, 2);
}

/// A directory named ".gradle" is always recorded as "Gradle".
pub proof fn lemma_detects_dot_gradle(siblings: Seq<(Seq<char>, bool)>)
    ensures
        first_match(detector_table(), ".gradle"@, siblings) == Some(entry("Gradle"@, ".gradle"@, None, "./gradlew build"@)),
{
    let t = detector_table();
    reveal_strlit("node_modules");
    reveal_strlit("target");
    reveal_strlit(".venv");
    reveal_strlit("venv");
    reveal_strlit("__pycache__");
    reveal_strlit(".gradle");
    reveal_strlit("build");
    reveal_strlit("DerivedData");
    reveal_strlit("Pods");
    reveal_strlit("bin");
    reveal_strlit("obj");
    reveal_strlit(".next");
    reveal_strlit(".nuxt");
    reveal_strlit(".terraform");
    reveal_strlit("cmake-build-debug");
    reveal_strlit(".idea");
    reveal_strlit("vendor");
    reveal_strlit(".bundle");
    reveal_strlit("_build");
    reveal_strlit("deps");
    reveal_strlit(".stack-work");
    reveal_strlit("dist-newstyle");
    reveal_strlit("zig-cache");
    reveal_strlit("zig-out");
    reveal_strlit(".dart_tool");
    reveal_strlit(".build");
    let idx = seq![5int];
    assert forall|j: int| 0 <= j < t.len() && (#[trigger] t[j]).dir_name == ".gradle"@ implies idx.contains(j) by {
        if j == 0 {
            assert(t[0].dir_name.len() != ".gradle"@.len());
        } else if j == 1 {
            assert(t[1].dir_name.len() != ".gradle"@.len());
        } else if j == 2 {
            assert(t[2].dir_name.len() != ".gradle"@.len());
        } else if j == 3 {
            assert(t[3].dir_name.len() != ".gradle"@.len());
        } else if j == 4 {
            assert(t[4].dir_name.len() != ".gradle"@.len());
        } else if j == 5 {
            assert(idx[0] == 5);
        } else if j == 6 {
            assert(t[6].dir_name.len() != ".gradle"@.len());
        } else if j == 7 {
            assert(t[7].dir_name.len() != ".gradle"@.len());
        } else if j == 8 {
            assert(t[8].dir_name.len() != ".gradle"@.len());
        } else if j == 9 {
            assert(t[9].dir_name.len() != ".gradle"@.len());
        } else if j == 10 {
            assert(t[10].dir_name.len() != ".gradle"@.len());
        } else if j == 11 {
            assert(t[11].dir_name.len() != ".gradle"@.len());
        } else if j == 12 {
            assert(t[12].dir_name.len() != ".gradle"@.len());
        } else if j == 13 {
            assert(t[13].dir_name.len() != ".gradle"@.len());
        } else if j == 14 {
            assert(t[14].dir_name.len() != ".gradle"@.len());
        } else if j == 15 {
            assert(t[15].dir_name.len() != ".gradle"@.len());
        } else if j == 16 {
            assert(t[16].dir_name.len() != ".gradle"@.len());
        } else if j == 17 {
            assert(t[17].dir_name.len() != ".gradle"@.len());
        } else if j == 18 {
            assert(t[18].dir_name.len() != ".gradle"@.len());
        } else if j == 19 {
            assert(t[19].dir_name.len() != ".gradle"@.len());
        } else if j == 20 {
            assert(t[20].dir_name[1] != ".gradle"@[1]);
        } else if j == 21 {
            assert(t[21].dir_name.len() != ".gradle"@.len());
        } else if j == 22 {
            assert(t[22].dir_name.len() != ".gradle"@.len());
        } else if j == 23 {
            assert(t[23].dir_name.len() != ".gradle"@.len());
        } else if j == 24 {
            assert(t[24].dir_name.len() != ".gradle"@.len());
        } else if j == 25 {
            assert(t[25].dir_name.len() != ".gradle"@.len());
        } else if j == 26 {
            assert(t[26].dir_name[0] != ".gradle"@[0]);
        } else if j == 27 {
            assert(t[27].dir_name.len() != ".gradle"@.len());
        } else if j == 28 {
            assert(t[28].dir_name.len() != ".gradle"@.len());
        }
    }
    lemma_first_match_among(t, ".gradle"@, siblings, idx);
    let sub = Seq::new(idx.len(), |a: int| t[idx[a]]);
    assert(sub =~= seq![entry("Gradle"@, ".gradle"@, None, "./gradlew build"@)]);
    reveal_with_fuel(first_match, 2);
}

/// A directory named "build" is recorded as "Gradle build output" when a file
/// named "build.gradle" is beside it; failing that, it is recorded as "Gradle
/// build output" when a file named "build.gradle.kts" is beside it; otherwise
/// it is not recorded.
pub proof fn lemma_detects_build(siblings: Seq<(Seq<char>, bool)>)
    ensures
        first_match(detector_table(), "build"@, siblings) == if file_named(siblings, "build.gradle"@) {
                Some(entry("Gradle build output"@, "build"@, Some("build.gradle"@), "./gradlew build"@))
            } else if file_named(siblings, "build.gradle.kts"@) {
                Some(entry("Gradle build output"@, "build"@, Some("build.gradle.kts"@), "./gradlew build"@))
            } else {
                None
            },
{
    let t = detector_table();
    reveal_strlit("node_modules");
    reveal_strlit("target");
    reveal_strlit(".venv");
    reveal_strlit("venv");
    reveal_strlit("__pycache__");
    reveal_strlit(".gradle");
    reveal_strlit("build");
    reveal_strlit("DerivedData");
    reveal_strlit("Pods");
    reveal_strlit("bin");
    reveal_strlit("obj");
    reveal_strlit(".next");
    reveal_strlit(".nuxt");
    reveal_strlit(".terraform");
    reveal_strlit("cmake-build-debug");
    reveal_strlit(".idea");
    reveal_strlit("vendor");
    reveal_strlit(".bundle");
    reveal_strlit("_build");
    reveal_strlit("deps");
    reveal_strlit(".stack-work");
    reveal_strlit("dist-newstyle");
    reveal_strlit("zig-cache");
    reveal_strlit("zig-out");
    reveal_strlit(".dart_tool");
    reveal_strlit(".build");
    let idx = seq![6int, 7int];
    assert forall|j: int| 0 <= j < t.len() && (#[trigger] t[j]).dir_name == "build"@ implies idx.contains(j) by {
        if j == 0 {
            assert(t[0].dir_name.len() != "build"@.len());
        } else if j == 1 {
            assert(t[1].dir_name.len() != "build"@.len());
        } else if j == 2 {
            assert(t[2].dir_name[0] != "build"@[0]);
        } else if j == 3 {
            assert(t[3].dir_name.len() != "build"@.len());
        } else if j == 4 {
            assert(t[4].dir_name.len() != "build"@.len());
        } else if j == 5 {
            assert(t[5].dir_name.len() != "build"@.len());
        } else if j == 6 {
            assert(idx[0] == 6);
        } else if j == 7 {
            assert(idx[1] == 7);
        } else if j == 8 {
            assert(t[8].dir_name.len() != "build"@.len());
        } else if j == 9 {
            assert(t[9].dir_name.len() != "build"@.len());
        } else if j == 10 {
            assert(t[10].dir_name.len() != "build"@.len());
        } else if j == 11 {
            assert(t[11].dir_name.len() != "build"@.len());
        } else if j == 12 {
            assert(t[12].dir_name.len() != "build"@.len());
        } else if j == 13 {
            assert(t[13].dir_name[0] != "build"@[0]);
        } else if j == 14 {
            assert(t[14].dir_name[0] != "build"@[0]);
        } else if j == 15 {
            assert(t[15].dir_name.len() != "build"@.len());
        } else if j == 16 {
            assert(t[16].dir_name.len() != "build"@.len());
        } else if j == 17 {
            assert(t[17].dir_name[0] != "build"@[0]);
        } else if j == 18 {
            assert(t[18].dir_name.len() != "build"@.len());
        } else if j == 19 {
            assert(t[19].dir_name.len() != "build"@.len());
        } else if j == 20 {
            assert(t[20].dir_name.len() != "build"@.len());
        } else if j == 21 {
            assert(t[21].dir_name.len() != "build"@.len());
        } else if j == 22 {
            assert(t[22].dir_name.len() != "build"@.len());
        } else if j == 23 {
            assert(t[23].dir_name.len() != "build"@.len());
        } else if j == 24 {
            assert(t[24].dir_name.len() != "build"@.len());
        } else if j == 25 {
            assert(t[25].dir_name.len() != "build"@.len());
        } else if j == 26 {
            assert(t[26].dir_name.len() != "build"@.len());
        } else if j == 27 {
            assert(t[27].dir_name.len() != "build"@.len());
        } else if j == 28 {
            assert(t[28].dir_name.len() != "build"@.len());
        }
    }
    lemma_first_match_among(t, "build"@, siblings, idx);
    let sub = Seq::new(idx.len(), |a: int| t[idx[a]]);
    assert(sub =~= seq![entry("Gradle build output"@, "build"@, Some("build.gradle"@), "./gradlew build"@), entry("Gradle build output"@, "build"@, Some("build.gradle.kts"@), "./gradlew build"@)]);
    reveal_strlit("build.gradle");
    lemma_exact_marker_files(siblings, "build.gradle"@);
    reveal_strlit("build.gradle.kts");
    lemma_exact_marker_files(siblings, "build.gradle.kts"@);
    reveal_with_fuel(first_match, 3);
}

/// A directory named "DerivedData" is always recorded as "Xcode DerivedData".
pub proof fn lemma_detects_deriveddata(siblings: Seq<(Seq<char>, bool)>)
    ensures
        first_match(detector_table(), "DerivedData"@, siblings) == Some(entry("Xcode DerivedData"@, "DerivedData"@, None, "regenerated automatically on next Xcode build"@)),
{
    let t = detector_table();
    reveal_strlit("node_modules");
    reveal_strlit("target");
    reveal_strlit(".venv");
    reveal_strlit("venv");
    reveal_strlit("__pycache__");
    reveal_strlit(".gradle");
    reveal_strlit("build");
    reveal_strlit("DerivedData");
    reveal_strlit("Pods");
    reveal_strlit("bin");
    reveal_strlit("obj");
    reveal_strlit(".next");
    reveal_strlit(".nuxt");
    reveal_strlit(".terraform");
    reveal_strlit("cmake-build-debug");
    reveal_strlit(".idea");
    reveal_strlit("vendor");
    reveal_strlit(".bundle");
    reveal_strlit("_build");
    reveal_strlit("deps");
    reveal_strlit(".stack-work");
    reveal_strlit("dist-newstyle");
    reveal_strlit("zig-cache");
    reveal_strlit("zig-out");
    reveal_strlit(".dart_tool");
    reveal_strlit(".build");
    let idx = seq![9int];
    assert forall|j: int| 0 <= j < t.len() && (#[trigger] t[j]).dir_name == "DerivedData"@ implies idx.contains(j) by {
        if j == 0 {
            assert(t[0].dir_name.len() != "DerivedData"@.len());
        } else if j == 1 {
            assert(t[1].dir_name.len() != "DerivedData"@.len());
        } else if j == 2 {
            assert(t[2].dir_name.len() != "DerivedData"@.len());
        } else if j == 3 {
            assert(t[3].dir_name.len() != "DerivedData"@.len());
        } else if j == 4 {
            assert(t[4].dir_name[0] != "DerivedData"@[0]);
        } else if j == 5 {
            assert(t[5].dir_name.len() != "DerivedData"@.len());
        } else if j == 6 {
            assert(t[6].dir_name.len() != "DerivedData"@.len());
        } else if j == 7 {
            assert(t[7].dir_name.len() != "DerivedData"@.len());
        } else if j == 8 {
            assert(t[8].dir_name.len() != "DerivedData"@.len());
        } else if j == 9 {
            assert(idx[0] == 9);
        } else if j == 10 {
            assert(t[10].dir_name.len() != "DerivedData"@.len());
        } else if j == 11 {
            assert(t[11].dir_name.len() != "DerivedData"@.len());
        } else if j == 12 {
            assert(t[12].dir_name.len() != "DerivedData"@.len());
        } else if j == 13 {
            assert(t[13].dir_name.len() != "DerivedData"@.len());
        } else if j == 14 {
            assert(t[14].dir_name.len() != "DerivedData"@.len());
        } else if j == 15 {
            assert(t[15].dir_name.len() != "DerivedData"@.len());
        } else if j == 16 {
            assert(t[16].dir_name.len() != "DerivedData"@.len());
        } else if j == 17 {
            assert(t[17].dir_name.len() != "DerivedData"@.len());
        } else if j == 18 {
            assert(t[18].dir_name.len() != "DerivedData"@.len());
        } else if j == 19 {
            assert(t[19].dir_name.len() != "DerivedData"@.len());
        } else if j == 20 {
            assert(t[20].dir_name.len() != "DerivedData"@.len());
        } else if j == 21 {
            assert(t[21].dir_name.len() != "DerivedData"@.len());
        } else if j == 22 {
            assert(t[22].dir_name.len() != "DerivedData"@.len());
        } else if j == 23 {
            assert(t[23].dir_name[0] != "DerivedData"@[0]);
        } else if j == 24 {
            assert(t[24].dir_name.len() != "DerivedData"@.len());
        } else if j == 25 {
            assert(t[25].dir_name.len() != "DerivedData"@.len());
        } else if j == 26 {
            assert(t[26].dir_name.len() != "DerivedData"@.len());
        } else if j == 27 {
            assert(t[27].dir_name.len() != "DerivedData"@.len());
        } else if j == 28 {
            assert(t[28].dir_name.len() != "DerivedData"@.len());
        }
    }
    lemma_first_match_among(t, "DerivedData"@, siblings, idx);
    let sub = Seq::new(idx.len(), |a: int| t[idx[a]]);
    assert(sub =~= seq![entry("Xcode DerivedData"@, "DerivedData"@, None, "regenerated automatically on next Xcode build"@)]);
    reveal_with_fuel(first_match, 2);
}

/// A directory named "Pods" is recorded as "CocoaPods" when a file named
/// "Podfile" is beside it; otherwise it is not recorded.
pub proof fn lemma_detects_pods(siblings: Seq<(Seq<char>, bool)>)
    ensures
        first_match(detector_table(), "Pods"@, siblings) == if file_named(siblings, "Podfile"@) {
                Some(entry("CocoaPods"@, "Pods"@, Some("Podfile"@), "pod install"@))
            } else {
                None
            },
{
    let t = detector_table();
    reveal_strlit("node_modules");
    reveal_strlit("target");
    reveal_strlit(".venv");
    reveal_strlit("venv");
    reveal_strlit("__pycache__");
    reveal_strlit(".gradle");
    reveal_strlit("build");
    reveal_strlit("DerivedData");
    reveal_strlit("Pods");
    reveal_strlit("bin");
    reveal_strlit("obj");
    reveal_strlit(".next");
    reveal_strlit(".nuxt");
    reveal_strlit(".terraform");
    reveal_strlit("cmake-build-debug");
    reveal_strlit(".idea");
    reveal_strlit("vendor");
    reveal_strlit(".bundle");
    reveal_strlit("_build");
    reveal_strlit("deps");
    reveal_strlit(".stack-work");
    reveal_strlit("dist-newstyle");
    reveal_strlit("zig-cache");
    reveal_strlit("zig-out");
    reveal_strlit(".dart_tool");
    reveal_strlit(".build");
    let idx = seq![10int];
    assert forall|j: int| 0 <= j < t.len() && (#[trigger] t[j]).dir_name == "Pods"@ implies idx.contains(j) by {
        if j == 0 {
            assert(t[0].dir_name.len() != "Pods"@.len());
        } else if j == 1 {
            assert(t[1].dir_name.len() != "Pods"@.len());
        } else if j == 2 {
            assert(t[2].dir_name.len() != "Pods"@.len());
        } else if j == 3 {
            assert(t[3].dir_name[0] != "Pods"@[0]);
        } else if j == 4 {
            assert(t[4].dir_name.len() != "Pods"@.len());
        } else if j == 5 {
            assert(t[5].dir_name.len() != "Pods"@.len());
        } else if j == 6 {
            assert(t[6].dir_name.len() != "Pods"@.len());
        } else if j == 7 {
            assert(t[7].dir_name.len() != "Pods"@.len());
        } else if j == 8 {
            assert(t[8].dir_name.len() != "Pods"@.len());
        } else if j == 9 {
            assert(t[9].dir_name.len() != "Pods"@.len());
        } else if j == 10 {
            assert(idx[0] == 10);
        } else if j == 11 {
            assert(t[11].dir_name.len() != "Pods"@.len());
        } else if j == 12 {
            assert(t[12].dir_name.len() != "Pods"@.len());
        } else if j == 13 {
            assert(t[13].dir_name.len() != "Pods"@.len());
        } else if j == 14 {
            assert(t[14].dir_name.len() != "Pods"@.len());
        } else if j == 15 {
            assert(t[15].dir_name.len() != "Pods"@.len());
        } else if j == 16 {
            assert(t[16].dir_name.len() != "Pods"@.len());
        } else if j == 17 {
            assert(t[17].dir_name.len() != "Pods"@.len());
        } else if j == 18 {
            assert(t[18].dir_name.len() != "Pods"@.len());
        } else if j == 19 {
            assert(t[19].dir_name.len() != "Pods"@.len());
        } else if j == 20 {
            assert(t[20].dir_name.len() != "Pods"@.len());
        } else if j == 21 {
            assert(t[21].dir_name.len() != "Pods"@.len());
        } else if j == 22 {
            assert(t[22].dir_name[0] != "Pods"@[0]);
        } else if j == 23 {
            assert(t[23].dir_name.len() != "Pods"@.len());
        } else if j == 24 {
            assert(t[24].dir_name.len() != "Pods"@.len());
        } else if j == 25 {
            assert(t[25].dir_name.len() != "Pods"@.len());
        } else if j == 26 {
            assert(t[26].dir_name.len() != "Pods"@.len());
        } else if j == 27 {
            assert(t[27].dir_name.len() != "Pods"@.len());
        } else if j == 28 {
            assert(t[28].dir_name.len() != "Pods"@.len());
        }
    }
    lemma_first_match_among(t, "Pods"@, siblings, idx);
    let sub = Seq::new(idx.len(), |a: int| t[idx[a]]);
    assert(sub =~= seq![entry("CocoaPods"@, "Pods"@, Some("Podfile"@), "pod install"@)]);
    reveal_strlit("Podfile");
    lemma_exact_marker_files(siblings, "Podfile"@);
    reveal_with_fuel(first_match, 2);
}

/// A directory named "bin" is recorded as ".NET" when a file with extension
/// ".csproj" and a non-empty base name is beside it; otherwise it is not
/// recorded.
pub proof fn lemma_detects_bin(siblings: Seq<(Seq<char>, bool)>)
    ensures
        first_match(detector_table(), "bin"@, siblings) == if file_with_extension(siblings, ".csproj"@) {
                Some(entry(".NET"@, "bin"@, Some(".csproj"@), "dotnet build"@))
            } else {
                None
            },
{
    let t = detector_table();
    reveal_strlit("node_modules");
    reveal_strlit("target");
    reveal_strlit(".venv");
    reveal_strlit("venv");
    reveal_strlit("__pycache__");
    reveal_strlit(".gradle");
    reveal_strlit("build");
    reveal_strlit("DerivedData");
    reveal_strlit("Pods");
    reveal_strlit("bin");
    reveal_strlit("obj");
    reveal_strlit(".next");
    reveal_strlit(".nuxt");
    reveal_strlit(".terraform");
    reveal_strlit("cmake-build-debug");
    reveal_strlit(".idea");
    reveal_strlit("vendor");
    reveal_strlit(".bundle");
    reveal_strlit("_build");
    reveal_strlit("deps");
    reveal_strlit(".stack-work");
    reveal_strlit("dist-newstyle");
    reveal_strlit("zig-cache");
    reveal_strlit("zig-out");
    reveal_strlit(".dart_tool");
    reveal_strlit(".build");
    let idx = seq![11int];
    assert forall|j: int| 0 <= j < t.len() && (#[trigger] t[j]).dir_name == "bin"@ implies idx.contains(j) by {
        if j == 0 {
            assert(t[0].dir_name.len() != "bin"@.len());
        } else if j == 1 {
            assert(t[1].dir_name.len() != "bin"@.len());
        } else if j == 2 {
            assert(t[2].dir_name.len() != "bin"@.len());
        } else if j == 3 {
            assert(t[3].dir_name.len() != "bin"@.len());
        } else if j == 4 {
            assert(t[4].dir_name.len() != "bin"@.len());
        } else if j == 5 {
            assert(t[5].dir_name.len() != "bin"@.len());
        } else if j == 6 {
            assert(t[6].dir_name.len() != "bin"@.len());
        } else if j == 7 {
            assert(t[7].dir_name.len() != "bin"@.len());
        } else if j == 8 {
            assert(t[8].dir_name.len() != "bin"@.len());
        } else if j == 9 {
            assert(t[9].dir_name.len() != "bin"@.len());
        } else if j == 10 {
            assert(t[10].dir_name.len() != "bin"@.len());
        } else if j == 11 {
            assert(idx[0] == 11);
        } else if j == 12 {
            assert(t[12].dir_name[0] != "bin"@[0]);
        } else if j == 13 {
            assert(t[13].dir_name.len() != "bin"@.len());
        } else if j == 14 {
            assert(t[14].dir_name.len() != "bin"@.len());
        } else if j == 15 {
            assert(t[15].dir_name.len() != "bin"@.len());
        } else if j == 16 {
            assert(t[16].dir_name.len() != "bin"@.len());
        } else if j == 17 {
            assert(t[17].dir_name.len() != "bin"@.len());
        } else if j == 18 {
            assert(t[18].dir_name.len() != "bin"@.len());
        } else if j == 19 {
            assert(t[19].dir_name.len() != "bin"@.len());
        } else if j == 20 {
            assert(t[20].dir_name.len() != "bin"@.len());
        } else if j == 21 {
            assert(t[21].dir_name.len() != "bin"@.len());
        } else if j == 22 {
            assert(t[22].dir_name.len() != "bin"@.len());
        } else if j == 23 {
            assert(t[23].dir_name.len() != "bin"@.len());
        } else if j == 24 {
            assert(t[24].dir_name.len() != "bin"@.len());
        } else if j == 25 {
            assert(t[25].dir_name.len() != "bin"@.len());
        } else if j == 26 {
            assert(t[26].dir_name.len() != "bin"@.len());
        } else if j == 27 {
            assert(t[27].dir_name.len() != "bin"@.len());
        } else if j == 28 {
            assert(t[28].dir_name.len() != "bin"@.len());
        }
    }
    lemma_first_match_among(t, "bin"@, siblings, idx);
    let sub = Seq::new(idx.len(), |a: int| t[idx[a]]);
    assert(sub =~= seq![entry(".NET"@, "bin"@, Some(".csproj"@), "dotnet build"@)]);
    lemma_csproj_is_extension();
    lemma_extension_marker_files(siblings, ".csproj"@);
    reveal_with_fuel(first_match, 2);
}

/// A directory named "obj" is recorded as ".NET" when a file with extension
/// ".csproj" and a non-empty base name is beside it; otherwise it is not
/// recorded.
pub proof fn lemma_detects_obj(siblings: Seq<(Seq<char>, bool)>)
    ensures
        first_match(detector_table(), "obj"@, siblings) == if file_with_extension(siblings, ".csproj"@) {
                Some(entry(".NET"@, "obj"@, Some(".csproj"@), "dotnet build"@))
            } else {
                None
            },
{
    let t = detector_table();
    reveal_strlit("node_modules");
    reveal_strlit("target");
    reveal_strlit(".venv");
    reveal_strlit("venv");
    reveal_strlit("__pycache__");
    reveal_strlit(".gradle");
    reveal_strlit("build");
    reveal_strlit("DerivedData");
    reveal_strlit("Pods");
    reveal_strlit("bin");
    reveal_strlit("obj");
    reveal_strlit(".next");
    reveal_strlit(".nuxt");
    reveal_strlit(".terraform");
    reveal_strlit("cmake-build-debug");
    reveal_strlit(".idea");
    reveal_strlit("vendor");
    reveal_strlit(".bundle");
    reveal_strlit("_build");
    reveal_strlit("deps");
    reveal_strlit(".stack-work");
    reveal_strlit("dist-newstyle");
    reveal_strlit("zig-cache");
    reveal_strlit("zig-out");
    reveal_strlit(".dart_tool");
    reveal_strlit(".build");
    let idx = seq![12int];
    assert forall|j: int| 0 <= j < t.len() && (#[trigger] t[j]).dir_name == "obj"@ implies idx.contains(j) by {
        if j == 0 {
            assert(t[0].dir_name.len() != "obj"@.len());
        } else if j == 1 {
            assert(t[1].dir_name.len() != "obj"@.len());
        } else if j == 2 {
            assert(t[2].dir_name.len() != "obj"@.len());
        } else if j == 3 {
            assert(t[3].dir_name.len() != "obj"@.len());
        } else if j == 4 {
            assert(t[4].dir_name.len() != "obj"@.len());
        } else if j == 5 {
            assert(t[5].dir_name.len() != "obj"@.len());
        } else if j == 6 {
            assert(t[6].dir_name.len() != "obj"@.len());
        } else if j == 7 {
            assert(t[7].dir_name.len() != "obj"@.len());
        } else if j == 8 {
            assert(t[8].dir_name.len() != "obj"@.len());
        } else if j == 9 {
            assert(t[9].dir_name.len() != "obj"@.len());
        } else if j == 10 {
            assert(t[10].dir_name.len() != "obj"@.len());
        } else if j == 11 {
            assert(t[11].dir_name[0] != "obj"@[0]);
        } else if j == 12 {
            assert(idx[0] == 12);
        } else if j == 13 {
            assert(t[13].dir_name.len() != "obj"@.len());
        } else if j == 14 {
            assert(t[14].dir_name.len() != "obj"@.len());
        } else if j == 15 {
            assert(t[15].dir_name.len() != "obj"@.len());
        } else if j == 16 {
            assert(t[16].dir_name.len() != "obj"@.len());
        } else if j == 17 {
            assert(t[17].dir_name.len() != "obj"@.len());
        } else if j == 18 {
            assert(t[18].dir_name.len() != "obj"@.len());
        } else if j == 19 {
            assert(t[19].dir_name.len() != "obj"@.len());
        } else if j == 20 {
            assert(t[20].dir_name.len() != "obj"@.len());
        } else if j == 21 {
            assert(t[21].dir_name.len() != "obj"@.len());
        } else if j == 22 {
            assert(t[22].dir_name.len() != "obj"@.len());
        } else if j == 23 {
            assert(t[23].dir_name.len() != "obj"@.len());
        } else if j == 24 {
            assert(t[24].dir_name.len() != "obj"@.len());
        } else if j == 25 {
            assert(t[25].dir_name.len() != "obj"@.len());
        } else if j == 26 {
            assert(t[26].dir_name.len() != "obj"@.len());
        } else if j == 27 {
            assert(t[27].dir_name.len() != "obj"@.len());
        } else if j == 28 {
            assert(t[28].dir_name.len() != "obj"@.len());
        }
    }
    lemma_first_match_among(t, "obj"@, siblings, idx);
    let sub = Seq::new(idx.len(), |a: int| t[idx[a]]);
    assert(sub =~= seq![entry(".NET"@, "obj"@, Some(".csproj"@), "dotnet build"@)]);
    lemma_csproj_is_extension();
    lemma_extension_marker_files(siblings, ".csproj"@);
    reveal_with_fuel(first_match, 2);
}

/// A directory named ".next" is always recorded as "Next.js".
pub proof fn lemma_detects_dot_next(siblings: Seq<(Seq<char>, bool)>)
    ensures
        first_match(detector_table(), ".next"@, siblings) == Some(entry("Next.js"@, ".next"@, None, "next build"@)),
{
    let t = detector_table();
    reveal_strlit("node_modules");
    reveal_strlit("target");
    reveal_strlit(".venv");
    reveal_strlit("venv");
    reveal_strlit("__pycache__");
    reveal_strlit(".gradle");
    reveal_strlit("build");
    reveal_strlit("DerivedData");
    reveal_strlit("Pods");
    reveal_strlit("bin");
    reveal_strlit("obj");
    reveal_strlit(".next");
    reveal_strlit(".nuxt");
    reveal_strlit(".terraform");
    reveal_strlit("cmake-build-debug");
    reveal_strlit(".idea");
    reveal_strlit("vendor");
    reveal_strlit(".bundle");
    reveal_strlit("_build");
    reveal_strlit("deps");
    reveal_strlit(".stack-work");
    reveal_strlit("dist-newstyle");
    reveal_strlit("zig-cache");
    reveal_strlit("zig-out");
    reveal_strlit(".dart_tool");
    reveal_strlit(".build");
    let idx = seq![13int];
    assert forall|j: int| 0 <= j < t.len() && (#[trigger] t[j]).dir_name == ".next"@ implies idx.contains(j) by {
        if j == 0 {
            assert(t[0].dir_name.len() != ".next"@.len());
        } else if j == 1 {
            assert(t[1].dir_name.len() != ".next"@.len());
        } else if j == 2 {
            assert(t[2].dir_name[1] != ".next"@[1]);
        } else if j == 3 {
            assert(t[3].dir_name.len() != ".next"@.len());
        } else if j == 4 {
            assert(t[4].dir_name.len() != ".next"@.len());
        } else if j == 5 {
            assert(t[5].dir_name.len() != ".next"@.len());
        } else if j == 6 {
            assert(t[6].dir_name[0] != ".next"@[0]);
        } else if j == 7 {
            assert(t[7].dir_name[0] != ".next"@[0]);
        } else if j == 8 {
            assert(t[8].dir_name.len() != ".next"@.len());
        } else if j == 9 {
            assert(t[9].dir_name.len() != ".next"@.len());
        } else if j == 10 {
            assert(t[10].dir_name.len() != ".next"@.len());
        } else if j == 11 {
            assert(t[11].dir_name.len() != ".next"@.len());
        } else if j == 12 {
            assert(t[12].dir_name.len() != ".next"@.len());
        } else if j == 13 {
            assert(idx[0] == 13);
        } else if j == 14 {
            assert(t[14].dir_name[2] != ".next"@[2]);
        } else if j == 15 {
            assert(t[15].dir_name.len() != ".next"@.len());
        } else if j == 16 {
            assert(t[16].dir_name.len() != ".next"@.len());
        } else if j == 17 {
            assert(t[17].dir_name[1] != ".next"@[1]);
        } else if j == 18 {
            assert(t[18].dir_name.len() != ".next"@.len());
        } else if j == 19 {
            assert(t[19].dir_name.len() != ".next"@.len());
        } else if j == 20 {
            assert(t[20].dir_name.len() != ".next"@.len());
        } else if j == 21 {
            assert(t[21].dir_name.len() != ".next"@.len());
        } else if j == 22 {
            assert(t[22].dir_name.len() != ".next"@.len());
        } else if j == 23 {
            assert(t[23].dir_name.len() != ".next"@.len());
        } else if j == 24 {
            assert(t[24].dir_name.len() != ".next"@.len());
        } else if j == 25 {
            assert(t[25].dir_name.len() != ".next"@.len());
        } else if j == 26 {
            assert(t[26].dir_name.len() != ".next"@.len());
        } else if j == 27 {
            assert(t[27].dir_name.len() != ".next"@.len());
        } else if j == 28 {
            assert(t[28].dir_name.len() != ".next"@.len());
        }
    }
    lemma_first_match_among(t, ".next"@, siblings, idx);
    let sub = Seq::new(idx.len(), |a: int| t[idx[a]]);
    assert(sub =~= seq![entry("Next.js"@, ".next"@, None, "next build"@)]);
    reveal_with_fuel(first_match, 2);
}

/// A directory named ".nuxt" is always recorded as "Nuxt".
pub proof fn lemma_detects_dot_nuxt(siblings: Seq<(Seq<char>, bool)>)
    ensures
        first_match(detector_table(), ".nuxt"@, siblings) == Some(entry("Nuxt"@, ".nuxt"@, None, "nuxt build"@)),
{
    let t = detector_table();
    reveal_strlit("node_modules");
    reveal_strlit("target");
    reveal_strlit(".venv");
    reveal_strlit("venv");
    reveal_strlit("__pycache__");
    reveal_strlit(".gradle");
    reveal_strlit("build");
    reveal_strlit("DerivedData");
    reveal_strlit("Pods");
    reveal_strlit("bin");
    reveal_strlit("obj");
    reveal_strlit(".next");
    reveal_strlit(".nuxt");
    reveal_strlit(".terraform");
    reveal_strlit("cmake-build-debug");
    reveal_strlit(".idea");
    reveal_strlit("vendor");
    reveal_strlit(".bundle");
    reveal_strlit("_build");
    reveal_strlit("deps");
    reveal_strlit(".stack-work");
    reveal_strlit("dist-newstyle");
    reveal_strlit("zig-cache");
    reveal_strlit("zig-out");
    reveal_strlit(".dart_tool");
    reveal_strlit(".build");
    let idx = seq![14int];
    assert forall|j: int| 0 <= j < t.len() && (#[trigger] t[j]).dir_name == ".nuxt"@ implies idx.contains(j) by {
        if j == 0 {
            assert(t[0].dir_name.len() != ".nuxt"@.len());
        } else if j == 1 {
            assert(t[1].dir_name.len() != ".nuxt"@.len());
        } else if j == 2 {
            assert(t[2].dir_name[1] != ".nuxt"@[1]);
        } else if j == 3 {
            assert(t[3].dir_name.len() != ".nuxt"@.len());
        } else if j == 4 {
            assert(t[4].dir_name.len() != ".nuxt"@.len());
        } else if j == 5 {
            assert(t[5].dir_name.len() != ".nuxt"@.len());
        } else if j == 6 {
            assert(t[6].dir_name[0] != ".nuxt"@[0]);
        } else if j == 7 {
            assert(t[7].dir_name[0] != ".nuxt"@[0]);
        } else if j == 8 {
            assert(t[8].dir_name.len() != ".nuxt"@.len());
        } else if j == 9 {
            assert(t[9].dir_name.len() != ".nuxt"@.len());
        } else if j == 10 {
            assert(t[10].dir_name.len() != ".nuxt"@.len());
        } else if j == 11 {
            assert(t[11].dir_name.len() != ".nuxt"@.len());
        } else if j == 12 {
            assert(t[12].dir_name.len() != ".nuxt"@.len());
        } else if j == 13 {
            assert(t[13].dir_name[2] != ".nuxt"@[2]);
        } else if j == 14 {
            assert(idx[0] == 14);
        } else if j == 15 {
            assert(t[15].dir_name.len() != ".nuxt"@.len());
        } else if j == 16 {
            assert(t[16].dir_name.len() != ".nuxt"@.len());
        } else if j == 17 {
            assert(t[17].dir_name[1] != ".nuxt"@[1]);
        } else if j == 18 {
            assert(t[18].dir_name.len() != ".nuxt"@.len());
        } else if j == 19 {
            assert(t[19].dir_name.len() != ".nuxt"@.len());
        } else if j == 20 {
            assert(t[20].dir_name.len() != ".nuxt"@.len());
        } else if j == 21 {
            assert(t[21].dir_name.len() != ".nuxt"@.len());
        } else if j == 22 {
            assert(t[22].dir_name.len() != ".nuxt"@.len());
        } else if j == 23 {
            assert(t[23].dir_name.len() != ".nuxt"@.len());
        } else if j == 24 {
            assert(t[24].dir_name.len() != ".nuxt"@.len());
        } else if j == 25 {
            assert(t[25].dir_name.len() != ".nuxt"@.len());
        } else if j == 26 {
            assert(t[26].dir_name.len() != ".nuxt"@.len());
        } else if j == 27 {
            assert(t[27].dir_name.len() != ".nuxt"@.len());
        } else if j == 28 {
            assert(t[28].dir_name.len() != ".nuxt"@.len());
        }
    }
    lemma_first_match_among(t, ".nuxt"@, siblings, idx);
    let sub = Seq::new(idx.len(), |a: int| t[idx[a]]);
    assert(sub =~= seq![entry("Nuxt"@, ".nuxt"@, None, "nuxt build"@)]);
    reveal_with_fuel(first_match, 2);
}

/// A directory named ".terraform" is always recorded as "Terraform".
pub proof fn lemma_detects_dot_terraform(siblings: Seq<(Seq<char>, bool)>)
    ensures
        first_match(detector_table(), ".terraform"@, siblings) == Some(entry("Terraform"@, ".terraform"@, None, "terraform init"@)),
{
    let t = detector_table();
    reveal_strlit("node_modules");
    reveal_strlit("target");
    reveal_strlit(".venv");
    reveal_strlit("venv");
    reveal_strlit("__pycache__");
    reveal_strlit(".gradle");
    reveal_strlit("build");
    reveal_strlit("DerivedData");
    reveal_strlit("Pods");
    reveal_strlit("bin");
    reveal_strlit("obj");
    reveal_strlit(".next");
    reveal_strlit(".nuxt");
    reveal_strlit(".terraform");
    reveal_strlit("cmake-build-debug");
    reveal_strlit(".idea");
    reveal_strlit("vendor");
    reveal_strlit(".bundle");
    reveal_strlit("_build");
    reveal_strlit("deps");
    reveal_strlit(".stack-work");
    reveal_strlit("dist-newstyle");
    reveal_strlit("zig-cache");
    reveal_strlit("zig-out");
    reveal_strlit(".dart_tool");
    reveal_strlit(".build");
    let idx = seq![15int];
    assert forall|j: int| 0 <= j < t.len() && (#[trigger] t[j]).dir_name == ".terraform"@ implies idx.contains(j) by {
        if j == 0 {
            assert(t[0].dir_name.len() != ".terraform"@.len());
        } else if j == 1 {
            assert(t[1].dir_name.len() != ".terraform"@.len());
        } else if j == 2 {
            assert(t[2].dir_name.len() != ".terraform"@.len());
        } else if j == 3 {
            assert(t[3].dir_name.len() != ".terraform"@.len());
        } else if j == 4 {
            assert(t[4].dir_name.len() != ".terraform"@.len());
        } else if j == 5 {
            assert(t[5].dir_name.len() != ".terraform"@.len());
        } else if j == 6 {
            assert(t[6].dir_name.len() != ".terraform"@.len());
        } else if j == 7 {
            assert(t[7].dir_name.len() != ".terraform"@.len());
        } else if j == 8 {
            assert(t[8].dir_name.len() != ".terraform"@.len());
        } else if j == 9 {
            assert(t[9].dir_name.len() != ".terraform"@.len());
        } else if j == 10 {
            assert(t[10].dir_name.len() != ".terraform"@.len());
        } else if j == 11 {
            assert(t[11].dir_name.len() != ".terraform"@.len());
        } else if j == 12 {
            assert(t[12].dir_name.len() != ".terraform"@.len());
        } else if j == 13 {
            assert(t[13].dir_name.len() != ".terraform"@.len());
        } else if j == 14 {
            assert(t[14].dir_name.len() != ".terraform"@.len());
        } else if j == 15 {
            assert(idx[0] == 15);
        } else if j == 16 {
            assert(t[16].dir_name.len() != ".terraform"@.len());
        } else if j == 17 {
            assert(t[17].dir_name.len() != ".terraform"@.len());
        } else if j == 18 {
            assert(t[18].dir_name.len() != ".terraform"@.len());
        } else if j == 19 {
            assert(t[19].dir_name.len() != ".terraform"@.len());
        } else if j == 20 {
            assert(t[20].dir_name.len() != ".terraform"@.len());
        } else if j == 21 {
            assert(t[21].dir_name.len() != ".terraform"@.len());
        } else if j == 22 {
            assert(t[22].dir_name.len() != ".terraform"@.len());
        } else if j == 23 {
            assert(t[23].dir_name.len() != ".terraform"@.len());
        } else if j == 24 {
            assert(t[24].dir_name.len() != ".terraform"@.len());
        } else if j == 25 {
            assert(t[25].dir_name.len() != ".terraform"@.len());
        } else if j == 26 {
            assert(t[26].dir_name.len() != ".terraform"@.len());
        } else if j == 27 {
            assert(t[27].dir_name[1] != ".terraform"@[1]);
        } else if j == 28 {
            assert(t[28].dir_name.len() != ".terraform"@.len());
        }
    }
    lemma_first_match_among(t, ".terraform"@, siblings, idx);
    let sub = Seq::new(idx.len(), |a: int| t[idx[a]]);
    assert(sub =~= seq![entry("Terraform"@, ".terraform"@, None, "terraform init"@)]);
    reveal_with_fuel(first_match, 2);
}

/// A directory named "cmake-build-debug" is always recorded as "CMake".
pub proof fn lemma_detects_cmake_build_debug(siblings: Seq<(Seq<char>, bool)>)
    ensures
        first_match(detector_table(), "cmake-build-debug"@, siblings) == Some(entry("CMake"@, "cmake-build-debug"@, None, "cmake --build ."@)),
{
    let t = detector_table();
    reveal_strlit("node_modules");
    reveal_strlit("target");
    reveal_strlit(".venv");
    reveal_strlit("venv");
    reveal_strlit("__pycache__");
    reveal_strlit(".gradle");
    reveal_strlit("build");
    reveal_strlit("DerivedData");
    reveal_strlit("Pods");
    reveal_strlit("bin");
    reveal_strlit("obj");
    reveal_strlit(".next");
    reveal_strlit(".nuxt");
    reveal_strlit(".terraform");
    reveal_strlit("cmake-build-debug");
    reveal_strlit(".idea");
    reveal_strlit("vendor");
    reveal_strlit(".bundle");
    reveal_strlit("_build");
    reveal_strlit("deps");
    reveal_strlit(".stack-work");
    reveal_strlit("dist-newstyle");
    reveal_strlit("zig-cache");
    reveal_strlit("zig-out");
    reveal_strlit(".dart_tool");
    reveal_strlit(".build");
    let idx = seq![16int];
    assert forall|j: int| 0 <= j < t.len() && (#[trigger] t[j]).dir_name == "cmake-build-debug"@ implies idx.contains(j) by {
        if j == 0 {
            assert(t[0].dir_name.len() != "cmake-build-debug"@.len());
        } else if j == 1 {
            assert(t[1].dir_name.len() != "cmake-build-debug"@.len());
        } else if j == 2 {
            assert(t[2].dir_name.len() != "cmake-build-debug"@.len());
        } else if j == 3 {
            assert(t[3].dir_name.len() != "cmake-build-debug"@.len());
        } else if j == 4 {
            assert(t[4].dir_name.len() != "cmake-build-debug"@.len());
        } else if j == 5 {
            assert(t[5].dir_name.len() != "cmake-build-debug"@.len());
        } else if j == 6 {
            assert(t[6].dir_name.len() != "cmake-build-debug"@.len());
        } else if j == 7 {
            assert(t[7].dir_name.len() != "cmake-build-debug"@.len());
        } else if j == 8 {
            assert(t[8].dir_name.len() != "cmake-build-debug"@.len());
        } else if j == 9 {
            assert(t[9].dir_name.len() != "cmake-build-debug"@.len());
        } else if j == 10 {
            assert(t[10].dir_name.len() != "cmake-build-debug"@.len());
        } else if j == 11 {
            assert(t[11].dir_name.len() != "cmake-build-debug"@.len());
        } else if j == 12 {
            assert(t[12].dir_name.len() != "cmake-build-debug"@.len());
        } else if j == 13 {
            assert(t[13].dir_name.len() != "cmake-build-debug"@.len());
        } else if j == 14 {
            assert(t[14].dir_name.len() != "cmake-build-debug"@.len());
        } else if j == 15 {
            assert(t[15].dir_name.len() != "cmake-build-debug"@.len());
        } else if j == 16 {
            assert(idx[0] == 16);
        } else if j == 17 {
            assert(t[17].dir_name.len() != "cmake-build-debug"@.len());
        } else if j == 18 {
            assert(t[18].dir_name.len() != "cmake-build-debug"@.len());
        } else if j == 19 {
            assert(t[19].dir_name.len() != "cmake-build-debug"@.len());
        } else if j == 20 {
            assert(t[20].dir_name.len() != "cmake-build-debug"@.len());
        } else if j == 21 {
            assert(t[21].dir_name.len() != "cmake-build-debug"@.len());
        } else if j == 22 {
            assert(t[22].dir_name.len() != "cmake-build-debug"@.len());
        } else if j == 23 {
            assert(t[23].dir_name.len() != "cmake-build-debug"@.len());
        } else if j == 24 {
            assert(t[24].dir_name.len() != "cmake-build-debug"@.len());
        } else if j == 25 {
            assert(t[25].dir_name.len() != "cmake-build-debug"@.len());
        } else if j == 26 {
            assert(t[26].dir_name.len() != "cmake-build-debug"@.len());
        } else if j == 27 {
            assert(t[27].dir_name.len() != "cmake-build-debug"@.len());
        } else if j == 28 {
            assert(t[28].dir_name.len() != "cmake-build-debug"@.len());
        }
    }
    lemma_first_match_among(t, "cmake-build-debug"@, siblings, idx);
    let sub = Seq::new(idx.len(), |a: int| t[idx[a]]);
    assert(sub =~= seq![entry("CMake"@, "cmake-build-debug"@, None, "cmake --build ."@)]);
    reveal_with_fuel(first_match, 2);
}

/// A directory named ".idea" is always recorded as "Android Studio".
pub proof fn lemma_detects_dot_idea(siblings: Seq<(Seq<char>, bool)>)
    ensures
        first_match(detector_table(), ".idea"@, siblings) == Some(entry("Android Studio"@, ".idea"@, None, "regenerated automatically by the IDE"@)),
{
    let t = detector_table();
    reveal_strlit("node_modules");
    reveal_strlit("target");
    reveal_strlit(".venv");
    reveal_strlit("venv");
    reveal_strlit("__pycache__");
    reveal_strlit(".gradle");
    reveal_strlit("build");
    reveal_strlit("DerivedData");
    reveal_strlit("Pods");
    reveal_strlit("bin");
    reveal_strlit("obj");
    reveal_strlit(".next");
    reveal_strlit(".nuxt");
    reveal_strlit(".terraform");
    reveal_strlit("cmake-build-debug");
    reveal_strlit(".idea");
    reveal_strlit("vendor");
    reveal_strlit(".bundle");
    reveal_strlit("_build");
    reveal_strlit("deps");
    reveal_strlit(".stack-work");
    reveal_strlit("dist-newstyle");
    reveal_strlit("zig-cache");
    reveal_strlit("zig-out");
    reveal_strlit(".dart_tool");
    reveal_strlit(".build");
    let idx = seq![17int];
    assert forall|j: int| 0 <= j < t.len() && (#[trigger] t[j]).dir_name == ".idea"@ implies idx.contains(j) by {
        if j == 0 {
            assert(t[0].dir_name.len() != ".idea"@.len());
        } else if j == 1 {
            assert(t[1].dir_name.len() != ".idea"@.len());
        } else if j == 2 {
            assert(t[2].dir_name[1] != ".idea"@[1]);
        } else if j == 3 {
            assert(t[3].dir_name.len() != ".idea"@.len());
        } else if j == 4 {
            assert(t[4].dir_name.len() != ".idea"@.len());
        } else if j == 5 {
            assert(t[5].dir_name.len() != ".idea"@.len());
        } else if j == 6 {
            assert(t[6].dir_name[0] != ".idea"@[0]);
        } else if j == 7 {
            assert(t[7].dir_name[0] != ".idea"@[0]);
        } else if j == 8 {
            assert(t[8].dir_name.len() != ".idea"@.len());
        } else if j == 9 {
            assert(t[9].dir_name.len() != ".idea"@.len());
        } else if j == 10 {
            assert(t[10].dir_name.len() != ".idea"@.len());
        } else if j == 11 {
            assert(t[11].dir_name.len() != ".idea"@.len());
        } else if j == 12 {
            assert(t[12].dir_name.len() != ".idea"@.len());
        } else if j == 13 {
            assert(t[13].dir_name[1] != ".idea"@[1]);
        } else if j == 14 {
            assert(t[14].dir_name[1] != ".idea"@[1]);
        } else if j == 15 {
            assert(t[15].dir_name.len() != ".idea"@.len());
        } else if j == 16 {
            assert(t[16].dir_name.len() != ".idea"@.len());
        } else if j == 17 {
            assert(idx[0] == 17);
        } else if j == 18 {
            assert(t[18].dir_name.len() != ".idea"@.len());
        } else if j == 19 {
            assert(t[19].dir_name.len() != ".idea"@.len());
        } else if j == 20 {
            assert(t[20].dir_name.len() != ".idea"@.len());
        } else if j == 21 {
            assert(t[21].dir_name.len() != ".idea"@.len());
        } else if j == 22 {
            assert(t[22].dir_name.len() != ".idea"@.len());
        } else if j == 23 {
            assert(t[23].dir_name.len() != ".idea"@.len());
        } else if j == 24 {
            assert(t[24].dir_name.len() != ".idea"@.len());
        } else if j == 25 {
            assert(t[25].dir_name.len() != ".idea"@.len());
        } else if j == 26 {
            assert(t[26].dir_name.len() != ".idea"@.len());
        } else if j == 27 {
            assert(t[27].dir_name.len() != ".idea"@.len());
        } else if j == 28 {
            assert(t[28].dir_name.len() != ".idea"@.len());
        }
    }
    lemma_first_match_among(t, ".idea"@, siblings, idx);
    let sub = Seq::new(idx.len(), |a: int| t[idx[a]]);
    assert(sub =~= seq![entry("Android Studio"@, ".idea"@, None, "regenerated automatically by the IDE"@)]);
    reveal_with_fuel(first_match, 2);
}

/// A directory named "vendor" is recorded as "Composer (PHP)" when a file named
/// "composer.json" is beside it; failing that, it is recorded as "Go build
/// cache" when a file named "go.mod" is beside it; otherwise it is not
/// recorded.
pub proof fn lemma_detects_vendor(siblings: Seq<(Seq<char>, bool)>)
    ensures
        first_match(detector_table(), "vendor"@, siblings) == if file_named(siblings, "composer.json"@) {
                Some(entry("Composer (PHP)"@, "vendor"@, Some("composer.json"@), "composer install"@))
            } else if file_named(siblings, "go.mod"@) {
                Some(entry("Go build cache"@, "vendor"@, Some("go.mod"@), "go mod vendor"@))
            } else {
                None
            },
{
    let t = detector_table();
    reveal_strlit("node_modules");
    reveal_strlit("target");
    reveal_strlit(".venv");
    reveal_strlit("venv");
    reveal_strlit("__pycache__");
    reveal_strlit(".gradle");
    reveal_strlit("build");
    reveal_strlit("DerivedData");
    reveal_strlit("Pods");
    reveal_strlit("bin");
    reveal_strlit("obj");
    reveal_strlit(".next");
    reveal_strlit(".nuxt");
    reveal_strlit(".terraform");
    reveal_strlit("cmake-build-debug");
    reveal_strlit(".idea");
    reveal_strlit("vendor");
    reveal_strlit(".bundle");
    reveal_strlit("_build");
    reveal_strlit("deps");
    reveal_strlit(".stack-work");
    reveal_strlit("dist-newstyle");
    reveal_strlit("zig-cache");
    reveal_strlit("zig-out");
    reveal_strlit(".dart_tool");
    reveal_strlit(".build");
    let idx = seq![18int, 19int];
    assert forall|j: int| 0 <= j < t.len() && (#[trigger] t[j]).dir_name == "vendor"@ implies idx.contains(j) by {
        if j == 0 {
            assert(t[0].dir_name.len() != "vendor"@.len());
        } else if j == 1 {
            assert(t[1].dir_name[0] != "vendor"@[0]);
        } else if j == 2 {
            assert(t[2].dir_name.len() != "vendor"@.len());
        } else if j == 3 {
            assert(t[3].dir_name.len() != "vendor"@.len());
        } else if j == 4 {
            assert(t[4].dir_name.len() != "vendor"@.len());
        } else if j == 5 {
            assert(t[5].dir_name.len() != "vendor"@.len());
        } else if j == 6 {
            assert(t[6].dir_name.len() != "vendor"@.len());
        } else if j == 7 {
            assert(t[7].dir_name.len() != "vendor"@.len());
        } else if j == 8 {
            assert(t[8].dir_name[0] != "vendor"@[0]);
        } else if j == 9 {
            assert(t[9].dir_name.len() != "vendor"@.len());
        } else if j == 10 {
            assert(t[10].dir_name.len() != "vendor"@.len());
        } else if j == 11 {
            assert(t[11].dir_name.len() != "vendor"@.len());
        } else if j == 12 {
            assert(t[12].dir_name.len() != "vendor"@.len());
        } else if j == 13 {
            assert(t[13].dir_name.len() != "vendor"@.len());
        } else if j == 14 {
            assert(t[14].dir_name.len() != "vendor"@.len());
        } else if j == 15 {
            assert(t[15].dir_name.len() != "vendor"@.len());
        } else if j == 16 {
            assert(t[16].dir_name.len() != "vendor"@.len());
        } else if j == 17 {
            assert(t[17].dir_name.len() != "vendor"@.len());
        } else if j == 18 {
            assert(idx[0] == 18);
        } else if j == 19 {
            assert(idx[1] == 19);
        } else if j == 20 {
            assert(t[20].dir_name.len() != "vendor"@.len());
        } else if j == 21 {
            assert(t[21].dir_name[0] != "vendor"@[0]);
        } else if j == 22 {
            assert(t[22].dir_name.len() != "vendor"@.len());
        } else if j == 23 {
            assert(t[23].dir_name.len() != "vendor"@.len());
        } else if j == 24 {
            assert(t[24].dir_name.len() != "vendor"@.len());
        } else if j == 25 {
            assert(t[25].dir_name.len() != "vendor"@.len());
        } else if j == 26 {
            assert(t[26].dir_name.len() != "vendor"@.len());
        } else if j == 27 {
            assert(t[27].dir_name.len() != "vendor"@.len());
        } else if j == 28 {
            assert(t[28].dir_name[0] != "vendor"@[0]);
        }
    }
    lemma_first_match_among(t, "vendor"@, siblings, idx);
    let sub = Seq::new(idx.len(), |a: int| t[idx[a]]);
    assert(sub =~= seq![entry("Composer (PHP)"@, "vendor"@, Some("composer.json"@), "composer install"@), entry("Go build cache"@, "vendor"@, Some("go.mod"@), "go mod vendor"@)]);
    reveal_strlit("composer.json");
    lemma_exact_marker_files(siblings, "composer.json"@);
    reveal_strlit("go.mod");
    lemma_exact_marker_files(siblings, "go.mod"@);
    reveal_with_fuel(first_match, 3);
}

/// A directory named ".bundle" is recorded as "Ruby (Bundler)" when a file
/// named "Gemfile" is beside it; otherwise it is not recorded.
pub proof fn lemma_detects_dot_bundle(siblings: Seq<(Seq<char>, bool)>)
    ensures
        first_match(detector_table(), ".bundle"@, siblings) == if file_named(siblings, "Gemfile"@) {
                Some(entry("Ruby (Bundler)"@, ".bundle"@, Some("Gemfile"@), "bundle install"@))
            } else {
                None
            },
{
    let t = detector_table();
    reveal_strlit("node_modules");
    reveal_strlit("target");
    reveal_strlit(".venv");
    reveal_strlit("venv");
    reveal_strlit("__pycache__");
    reveal_strlit(".gradle");
    reveal_strlit("build");
    reveal_strlit("DerivedData");
    reveal_strlit("Pods");
    reveal_strlit("bin");
    reveal_strlit("obj");
    reveal_strlit(".next");
    reveal_strlit(".nuxt");
    reveal_strlit(".terraform");
    reveal_strlit("cmake-build-debug");
    reveal_strlit(".idea");
    reveal_strlit("vendor");
    reveal_strlit(".bundle");
    reveal_strlit("_build");
    reveal_strlit("deps");
    reveal_strlit(".stack-work");
    reveal_strlit("dist-newstyle");
    reveal_strlit("zig-cache");
    reveal_strlit("zig-out");
    reveal_strlit(".dart_tool");
    reveal_strlit(".build");
    let idx = seq![20int];
    assert forall|j: int| 0 <= j < t.len() && (#[trigger] t[j]).dir_name == ".bundle"@ implies idx.contains(j) by {
        if j == 0 {
            assert(t[0].dir_name.len() != ".bundle"@.len());
        } else if j == 1 {
            assert(t[1].dir_name.len() != ".bundle"@.len());
        } else if j == 2 {
            assert(t[2].dir_name.len() != ".bundle"@.len());
        } else if j == 3 {
            assert(t[3].dir_name.len() != ".bundle"@.len());
        } else if j == 4 {
            assert(t[4].dir_name.len() != ".bundle"@.len());
        } else if j == 5 {
            assert(t[5].dir_name[1] != ".bundle"@[1]);
        } else if j == 6 {
            assert(t[6].dir_name.len() != ".bundle"@.len());
        } else if j == 7 {
            assert(t[7].dir_name.len() != ".bundle"@.len());
        } else if j == 8 {
            assert(t[8].dir_name.len() != ".bundle"@.len());
        } else if j == 9 {
            assert(t[9].dir_name.len() != ".bundle"@.len());
        } else if j == 10 {
            assert(t[10].dir_name.len() != ".bundle"@.len());
        } else if j == 11 {
            assert(t[11].dir_name.len() != ".bundle"@.len());
        } else if j == 12 {
            assert(t[12].dir_name.len() != ".bundle"@.len());
        } else if j == 13 {
            assert(t[13].dir_name.len() != ".bundle"@.len());
        } else if j == 14 {
            assert(t[14].dir_name.len() != ".bundle"@.len());
        } else if j == 15 {
            assert(t[15].dir_name.len() != ".bundle"@.len());
        } else if j == 16 {
            assert(t[16].dir_name.len() != ".bundle"@.len());
        } else if j == 17 {
            assert(t[17].dir_name.len() != ".bundle"@.len());
        } else if j == 18 {
            assert(t[18].dir_name.len() != ".bundle"@.len());
        } else if j == 19 {
            assert(t[19].dir_name.len() != ".bundle"@.len());
        } else if j == 20 {
            assert(idx[0] == 20);
        } else if j == 21 {
            assert(t[21].dir_name.len() != ".bundle"@.len());
        } else if j == 22 {
            assert(t[22].dir_name.len() != ".bundle"@.len());
        } else if j == 23 {
            assert(t[23].dir_name.len() != ".bundle"@.len());
        } else if j == 24 {
            assert(t[24].dir_name.len() != ".bundle"@.len());
        } else if j == 25 {
            assert(t[25].dir_name.len() != ".bundle"@.len());
        } else if j == 26 {
            assert(t[26].dir_name[0] != ".bundle"@[0]);
        } else if j == 27 {
            assert(t[27].dir_name.len() != ".bundle"@.len());
        } else if j == 28 {
            assert(t[28].dir_name.len() != ".bundle"@.len());
        }
    }
    lemma_first_match_among(t, ".bundle"@, siblings, idx);
    let sub = Seq::new(idx.len(), |a: int| t[idx[a]]);
    assert(sub =~= seq![entry("Ruby (Bundler)"@, ".bundle"@, Some("Gemfile"@), "bundle install"@)]);
    reveal_strlit("Gemfile");
    lemma_exact_marker_files(siblings, "Gemfile"@);
    reveal_with_fuel(first_match, 2);
}

/// A directory named "_build" is recorded as "Elixir" when a file named
/// "mix.exs" is beside it; otherwise it is not recorded.
pub proof fn lemma_detects_underscore_build(siblings: Seq<(Seq<char>, bool)>)
    ensures
        first_match(detector_table(), "_build"@, siblings) == if file_named(siblings, "mix.exs"@) {
                Some(entry("Elixir"@, "_build"@, Some("mix.exs"@), "mix compile"@))
            } else {
                None
            },
{
    let t = detector_table();
    reveal_strlit("node_modules");
    reveal_strlit("target");
    reveal_strlit(".venv");
    reveal_strlit("venv");
    reveal_strlit("__pycache__");
    reveal_strlit(".gradle");
    reveal_strlit("build");
    reveal_strlit("DerivedData");
    reveal_strlit("Pods");
    reveal_strlit("bin");
    reveal_strlit("obj");
    reveal_strlit(".next");
    reveal_strlit(".nuxt");
    reveal_strlit(".terraform");
    reveal_strlit("cmake-build-debug");
    reveal_strlit(".idea");
    reveal_strlit("vendor");
    reveal_strlit(".bundle");
    reveal_strlit("_build");
    reveal_strlit("deps");
    reveal_strlit(".stack-work");
    reveal_strlit("dist-newstyle");
    reveal_strlit("zig-cache");
    reveal_strlit("zig-out");
    reveal_strlit(".dart_tool");
    reveal_strlit(".build");
    let idx = seq![21int];
    assert forall|j: int| 0 <= j < t.len() && (#[trigger] t[j]).dir_name == "_build"@ implies idx.contains(j) by {
        if j == 0 {
            assert(t[0].dir_name.len() != "_build"@.len());
        } else if j == 1 {
            assert(t[1].dir_name[0] != "_build"@[0]);
        } else if j == 2 {
            assert(t[2].dir_name.len() != "_build"@.len());
        } else if j == 3 {
            assert(t[3].dir_name.len() != "_build"@.len());
        } else if j == 4 {
            assert(t[4].dir_name.len() != "_build"@.len());
        } else if j == 5 {
            assert(t[5].dir_name.len() != "_build"@.len());
        } else if j == 6 {
            assert(t[6].dir_name.len() != "_build"@.len());
        } else if j == 7 {
            assert(t[7].dir_name.len() != "_build"@.len());
        } else if j == 8 {
            assert(t[8].dir_name[0] != "_build"@[0]);
        } else if j == 9 {
            assert(t[9].dir_name.len() != "_build"@.len());
        } else if j == 10 {
            assert(t[10].dir_name.len() != "_build"@.len());
        } else if j == 11 {
            assert(t[11].dir_name.len() != "_build"@.len());
        } else if j == 12 {
            assert(t[12].dir_name.len() != "_build"@.len());
        } else if j == 13 {
            assert(t[13].dir_name.len() != "_build"@.len());
        } else if j == 14 {
            assert(t[14].dir_name.len() != "_build"@.len());
        } else if j == 15 {
            assert(t[15].dir_name.len() != "_build"@.len());
        } else if j == 16 {
            assert(t[16].dir_name.len() != "_build"@.len());
        } else if j == 17 {
            assert(t[17].dir_name.len() != "_build"@.len());
        } else if j == 18 {
            assert(t[18].dir_name[0] != "_build"@[0]);
        } else if j == 19 {
            assert(t[19].dir_name[0] != "_build"@[0]);
        } else if j == 20 {
            assert(t[20].dir_name.len() != "_build"@.len());
        } else if j == 21 {
            assert(idx[0] == 21);
        } else if j == 22 {
            assert(t[22].dir_name.len() != "_build"@.len());
        } else if j == 23 {
            assert(t[23].dir_name.len() != "_build"@.len());
        } else if j == 24 {
            assert(t[24].dir_name.len() != "_build"@.len());
        } else if j == 25 {
            assert(t[25].dir_name.len() != "_build"@.len());
        } else if j == 26 {
            assert(t[26].dir_name.len() != "_build"@.len());
        } else if j == 27 {
            assert(t[27].dir_name.len() != "_build"@.len());
        } else if j == 28 {
            assert(t[28].dir_name[0] != "_build"@[0]);
        }
    }
    lemma_first_match_among(t, "_build"@, siblings, idx);
    let sub = Seq::new(idx.len(), |a: int| t[idx[a]]);
    assert(sub =~= seq![entry("Elixir"@, "_build"@, Some("mix.exs"@), "mix compile"@)]);
    reveal_strlit("mix.exs");
    lemma_exact_marker_files(siblings, "mix.exs"@);
    reveal_with_fuel(first_match, 2);
}

/// A directory named "deps" is recorded as "Elixir deps" when a file named
/// "mix.exs" is beside it; otherwise it is not recorded.
pub proof fn lemma_detects_deps(siblings: Seq<(Seq<char>, bool)>)
    ensures
        first_match(detector_table(), "deps"@, siblings) == if file_named(siblings, "mix.exs"@) {
                Some(entry("Elixir deps"@, "deps"@, Some("mix.exs"@), "mix deps.get"@))
            } else {
                None
            },
{
    let t = detector_table();
    reveal_strlit("node_modules");
    reveal_strlit("target");
    reveal_strlit(".venv");
    reveal_strlit("venv");
    reveal_strlit("__pycache__");
    reveal_strlit(".gradle");
    reveal_strlit("build");
    reveal_strlit("DerivedData");
    reveal_strlit("Pods");
    reveal_strlit("bin");
    reveal_strlit("obj");
    reveal_strlit(".next");
    reveal_strlit(".nuxt");
    reveal_strlit(".terraform");
    reveal_strlit("cmake-build-debug");
    reveal_strlit(".idea");
    reveal_strlit("vendor");
    reveal_strlit(".bundle");
    reveal_strlit("_build");
    reveal_strlit("deps");
    reveal_strlit(".stack-work");
    reveal_strlit("dist-newstyle");
    reveal_strlit("zig-cache");
    reveal_strlit("zig-out");
    reveal_strlit(".dart_tool");
    reveal_strlit(".build");
    let idx = seq![22int];
    assert forall|j: int| 0 <= j < t.len() && (#[trigger] t[j]).dir_name == "deps"@ implies idx.contains(j) by {
        if j == 0 {
            assert(t[0].dir_name.len() != "deps"@.len());
        } else if j == 1 {
            assert(t[1].dir_name.len() != "deps"@.len());
        } else if j == 2 {
            assert(t[2].dir_name.len() != "deps"@.len());
        } else if j == 3 {
            assert(t[3].dir_name[0] != "deps"@[0]);
        } else if j == 4 {
            assert(t[4].dir_name.len() != "deps"@.len());
        } else if j == 5 {
            assert(t[5].dir_name.len() != "deps"@.len());
        } else if j == 6 {
            assert(t[6].dir_name.len() != "deps"@.len());
        } else if j == 7 {
            assert(t[7].dir_name.len() != "deps"@.len());
        } else if j == 8 {
            assert(t[8].dir_name.len() != "deps"@.len());
        } else if j == 9 {
            assert(t[9].dir_name.len() != "deps"@.len());
        } else if j == 10 {
            assert(t[10].dir_name[0] != "deps"@[0]);
        } else if j == 11 {
            assert(t[11].dir_name.len() != "deps"@.len());
        } else if j == 12 {
            assert(t[12].dir_name.len() != "deps"@.len());
        } else if j == 13 {
            assert(t[13].dir_name.len() != "deps"@.len());
        } else if j == 14 {
            assert(t[14].dir_name.len() != "deps"@.len());
        } else if j == 15 {
            assert(t[15].dir_name.len() != "deps"@.len());
        } else if j == 16 {
            assert(t[16].dir_name.len() != "deps"@.len());
        } else if j == 17 {
            assert(t[17].dir_name.len() != "deps"@.len());
        } else if j == 18 {
            assert(t[18].dir_name.len() != "deps"@.len());
        } else if j == 19 {
            assert(t[19].dir_name.len() != "deps"@.len());
        } else if j == 20 {
            assert(t[20].dir_name.len() != "deps"@.len());
        } else if j == 21 {
            assert(t[21].dir_name.len() != "deps"@.len());
        } else if j == 22 {
            assert(idx[0] == 22);
        } else if j == 23 {
            assert(t[23].dir_name.len() != "deps"@.len());
        } else if j == 24 {
            assert(t[24].dir_name.len() != "deps"@.len());
        } else if j == 25 {
            assert(t[25].dir_name.len() != "deps"@.len());
        } else if j == 26 {
            assert(t[26].dir_name.len() != "deps"@.len());
        } else if j == 27 {
            assert(t[27].dir_name.len() != "deps"@.len());
        } else if j == 28 {
            assert(t[28].dir_name.len() != "deps"@.len());
        }
    }
    lemma_first_match_among(t, "deps"@, siblings, idx);
    let sub = Seq::new(idx.len(), |a: int| t[idx[a]]);
    assert(sub =~= seq![entry("Elixir deps"@, "deps"@, Some("mix.exs"@), "mix deps.get"@)]);
    reveal_strlit("mix.exs");
    lemma_exact_marker_files(siblings, "mix.exs"@);
    reveal_with_fuel(first_match, 2);
}

/// A directory named ".stack-work" is always recorded as "Haskell (Stack)".
pub proof fn lemma_detects_dot_stack_work(siblings: Seq<(Seq<char>, bool)>)
    ensures
        first_match(detector_table(), ".stack-work"@, siblings) == Some(entry("Haskell (Stack)"@, ".stack-work"@, None, "stack build"@)),
{
    let t = detector_table();
    reveal_strlit("node_modules");
    reveal_strlit("target");
    reveal_strlit(".venv");
    reveal_strlit("venv");
    reveal_strlit("__pycache__");
    reveal_strlit(".gradle");
    reveal_strlit("build");
    reveal_strlit("DerivedData");
    reveal_strlit("Pods");
    reveal_strlit("bin");
    reveal_strlit("obj");
    reveal_strlit(".next");
    reveal_strlit(".nuxt");
    reveal_strlit(".terraform");
    reveal_strlit("cmake-build-debug");
    reveal_strlit(".idea");
    reveal_strlit("vendor");
    reveal_strlit(".bundle");
    reveal_strlit("_build");
    reveal_strlit("deps");
    reveal_strlit(".stack-work");
    reveal_strlit("dist-newstyle");
    reveal_strlit("zig-cache");
    reveal_strlit("zig-out");
    reveal_strlit(".dart_tool");
    reveal_strlit(".build");
    let idx = seq![23int];
    assert forall|j: int| 0 <= j < t.len() && (#[trigger] t[j]).dir_name == ".stack-work"@ implies idx.contains(j) by {
        if j == 0 {
            assert(t[0].dir_name.len() != ".stack-work"@.len());
        } else if j == 1 {
            assert(t[1].dir_name.len() != ".stack-work"@.len());
        } else if j == 2 {
            assert(t[2].dir_name.len() != ".stack-work"@.len());
        } else if j == 3 {
            assert(t[3].dir_name.len() != ".stack-work"@.len());
        } else if j == 4 {
            assert(t[4].dir_name[0] != ".stack-work"@[0]);
        } else if j == 5 {
            assert(t[5].dir_name.len() != ".stack-work"@.len());
        } else if j == 6 {
            assert(t[6].dir_name.len() != ".stack-work"@.len());
        } else if j == 7 {
            assert(t[7].dir_name.len() != ".stack-work"@.len());
        } else if j == 8 {
            assert(t[8].dir_name.len() != ".stack-work"@.len());
        } else if j == 9 {
            assert(t[9].dir_name[0] != ".stack-work"@[0]);
        } else if j == 10 {
            assert(t[10].dir_name.len() != ".stack-work"@.len());
        } else if j == 11 {
            assert(t[11].dir_name.len() != ".stack-work"@.len());
        } else if j == 12 {
            assert(t[12].dir_name.len() != ".stack-work"@.len());
        } else if j == 13 {
            assert(t[13].dir_name.len() != ".stack-work"@.len());
        } else if j == 14 {
            assert(t[14].dir_name.len() != ".stack-work"@.len());
        } else if j == 15 {
            assert(t[15].dir_name.len() != ".stack-work"@.len());
        } else if j == 16 {
            assert(t[16].dir_name.len() != ".stack-work"@.len());
        } else if j == 17 {
            assert(t[17].dir_name.len() != ".stack-work"@.len());
        } else if j == 18 {
            assert(t[18].dir_name.len() != ".stack-work"@.len());
        } else if j == 19 {
            assert(t[19].dir_name.len() != ".stack-work"@.len());
        } else if j == 20 {
            assert(t[20].dir_name.len() != ".stack-work"@.len());
        } else if j == 21 {
            assert(t[21].dir_name.len() != ".stack-work"@.len());
        } else if j == 22 {
            assert(t[22].dir_name.len() != ".stack-work"@.len());
        } else if j == 23 {
            assert(idx[0] == 23);
        } else if j == 24 {
            assert(t[24].dir_name.len() != ".stack-work"@.len());
        } else if j == 25 {
            assert(t[25].dir_name.len() != ".stack-work"@.len());
        } else if j == 26 {
            assert(t[26].dir_name.len() != ".stack-work"@.len());
        } else if j == 27 {
            assert(t[27].dir_name.len() != ".stack-work"@.len());
        } else if j == 28 {
            assert(t[28].dir_name.len() != ".stack-work"@.len());
        }
    }
    lemma_first_match_among(t, ".stack-work"@, siblings, idx);
    let sub = Seq::new(idx.len(), |a: int| t[idx[a]]);
    assert(sub =~= seq![entry("Haskell (Stack)"@, ".stack-work"@, None, "stack build"@)]);
    reveal_with_fuel(first_match, 2);
}

/// A directory named "dist-newstyle" is always recorded as "Haskell (Cabal)".
pub proof fn lemma_detects_dist_newstyle(siblings: Seq<(Seq<char>, bool)>)
    ensures
        first_match(detector_table(), "dist-newstyle"@, siblings) == Some(entry("Haskell (Cabal)"@, "dist-newstyle"@, None, "cabal build"@)),
{
    let t = detector_table();
    reveal_strlit("node_modules");
    reveal_strlit("target");
    reveal_strlit(".venv");
    reveal_strlit("venv");
    reveal_strlit("__pycache__");
    reveal_strlit(".gradle");
    reveal_strlit("build");
    reveal_strlit("DerivedData");
    reveal_strlit("Pods");
    reveal_strlit("bin");
    reveal_strlit("obj");
    reveal_strlit(".next");
    reveal_strlit(".nuxt");
    reveal_strlit(".terraform");
    reveal_strlit("cmake-build-debug");
    reveal_strlit(".idea");
    reveal_strlit("vendor");
    reveal_strlit(".bundle");
    reveal_strlit("_build");
    reveal_strlit("deps");
    reveal_strlit(".stack-work");
    reveal_strlit("dist-newstyle");
    reveal_strlit("zig-cache");
    reveal_strlit("zig-out");
    reveal_strlit(".dart_tool");
    reveal_strlit(".build");
    let idx = seq![24int];
    assert forall|j: int| 0 <= j < t.len() && (#[trigger] t[j]).dir_name == "dist-newstyle"@ implies idx.contains(j) by {
        if j == 0 {
            assert(t[0].dir_name.len() != "dist-newstyle"@.len());
        } else if j == 1 {
            assert(t[1].dir_name.len() != "dist-newstyle"@.len());
        } else if j == 2 {
            assert(t[2].dir_name.len() != "dist-newstyle"@.len());
        } else if j == 3 {
            assert(t[3].dir_name.len() != "dist-newstyle"@.len());
        } else if j == 4 {
            assert(t[4].dir_name.len() != "dist-newstyle"@.len());
        } else if j == 5 {
            assert(t[5].dir_name.len() != "dist-newstyle"@.len());
        } else if j == 6 {
            assert(t[6].dir_name.len() != "dist-newstyle"@.len());
        } else if j == 7 {
            assert(t[7].dir_name.len() != "dist-newstyle"@.len());
        } else if j == 8 {
            assert(t[8].dir_name.len() != "dist-newstyle"@.len());
        } else if j == 9 {
            assert(t[9].dir_name.len() != "dist-newstyle"@.len());
        } else if j == 10 {
            assert(t[10].dir_name.len() != "dist-newstyle"@.len());
        } else if j == 11 {
            assert(t[11].dir_name.len() != "dist-newstyle"@.len());
        } else if j == 12 {
            assert(t[12].dir_name.len() != "dist-newstyle"@.len());
        } else if j == 13 {
            assert(t[13].dir_name.len() != "dist-newstyle"@.len());
        } else if j == 14 {
            assert(t[14].dir_name.len() != "dist-newstyle"@.len());
        } else if j == 15 {
            assert(t[15].dir_name.len() != "dist-newstyle"@.len());
        } else if j == 16 {
            assert(t[16].dir_name.len() != "dist-newstyle"@.len());
        } else if j == 17 {
            assert(t[17].dir_name.len() != "dist-newstyle"@.len());
        } else if j == 18 {
            assert(t[18].dir_name.len() != "dist-newstyle"@.len());
        } else if j == 19 {
            assert(t[19].dir_name.len() != "dist-newstyle"@.len());
        } else if j == 20 {
            assert(t[20].dir_name.len() != "dist-newstyle"@.len());
        } else if j == 21 {
            assert(t[21].dir_name.len() != "dist-newstyle"@.len());
        } else if j == 22 {
            assert(t[22].dir_name.len() != "dist-newstyle"@.len());
        } else if j == 23 {
            assert(t[23].dir_name.len() != "dist-newstyle"@.len());
        } else if j == 24 {
            assert(idx[0] == 24);
        } else if j == 25 {
            assert(t[25].dir_name.len() != "dist-newstyle"@.len());
        } else if j == 26 {
            assert(t[26].dir_name.len() != "dist-newstyle"@.len());
        } else if j == 27 {
            assert(t[27].dir_name.len() != "dist-newstyle"@.len());
        } else if j == 28 {
            assert(t[28].dir_name.len() != "dist-newstyle"@.len());
        }
    }
    lemma_first_match_among(t, "dist-newstyle"@, siblings, idx);
    let sub = Seq::new(idx.len(), |a: int| t[idx[a]]);
    assert(sub =~= seq![entry("Haskell (Cabal)"@, "dist-newstyle"@, None, "cabal build"@)]);
    reveal_with_fuel(first_match, 2);
}

/// A directory named "zig-cache" is always recorded as "Zig".
pub proof fn lemma_detects_zig_cache(siblings: Seq<(Seq<char>, bool)>)
    ensures
        first_match(detector_table(), "zig-cache"@, siblings) == Some(entry("Zig"@, "zig-cache"@, None, "zig build"@)),
{
    let t = detector_table();
    reveal_strlit("node_modules");
    reveal_strlit("target");
    reveal_strlit(".venv");
    reveal_strlit("venv");
    reveal_strlit("__pycache__");
    reveal_strlit(".gradle");
    reveal_strlit("build");
    reveal_strlit("DerivedData");
    reveal_strlit("Pods");
    reveal_strlit("bin");
    reveal_strlit("obj");
    reveal_strlit(".next");
    reveal_strlit(".nuxt");
    reveal_strlit(".terraform");
    reveal_strlit("cmake-build-debug");
    reveal_strlit(".idea");
    reveal_strlit("vendor");
    reveal_strlit(".bundle");
    reveal_strlit("_build");
    reveal_strlit("deps");
    reveal_strlit(".stack-work");
    reveal_strlit("dist-newstyle");
    reveal_strlit("zig-cache");
    reveal_strlit("zig-out");
    reveal_strlit(".dart_tool");
    reveal_strlit(".build");
    let idx = seq![25int];
    assert forall|j: int| 0 <= j < t.len() && (#[trigger] t[j]).dir_name == "zig-cache"@ implies idx.contains(j) by {
        if j == 0 {
            assert(t[0].dir_name.len() != "zig-cache"@.len());
        } else if j == 1 {
            assert(t[1].dir_name.len() != "zig-cache"@.len());
        } else if j == 2 {
            assert(t[2].dir_name.len() != "zig-cache"@.len());
        } else if j == 3 {
            assert(t[3].dir_name.len() != "zig-cache"@.len());
        } else if j == 4 {
            assert(t[4].dir_name.len() != "zig-cache"@.len());
        } else if j == 5 {
            assert(t[5].dir_name.len() != "zig-cache"@.len());
        } else if j == 6 {
            assert(t[6].dir_name.len() != "zig-cache"@.len());
        } else if j == 7 {
            assert(t[7].dir_name.len() != "zig-cache"@.len());
        } else if j == 8 {
            assert(t[8].dir_name.len() != "zig-cache"@.len());
        } else if j == 9 {
            assert(t[9].dir_name.len() != "zig-cache"@.len());
        } else if j == 10 {
            assert(t[10].dir_name.len() != "zig-cache"@.len());
        } else if j == 11 {
            assert(t[11].dir_name.len() != "zig-cache"@.len());
        } else if j == 12 {
            assert(t[12].dir_name.len() != "zig-cache"@.len());
        } else if j == 13 {
            assert(t[13].dir_name.len() != "zig-cache"@.len());
        } else if j == 14 {
            assert(t[14].dir_name.len() != "zig-cache"@.len());
        } else if j == 15 {
            assert(t[15].dir_name.len() != "zig-cache"@.len());
        } else if j == 16 {
            assert(t[16].dir_name.len() != "zig-cache"@.len());
        } else if j == 17 {
            assert(t[17].dir_name.len() != "zig-cache"@.len());
        } else if j == 18 {
            assert(t[18].dir_name.len() != "zig-cache"@.len());
        } else if j == 19 {
            assert(t[19].dir_name.len() != "zig-cache"@.len());
        } else if j == 20 {
            assert(t[20].dir_name.len() != "zig-cache"@.len());
        } else if j == 21 {
            assert(t[21].dir_name.len() != "zig-cache"@.len());
        } else if j == 22 {
            assert(t[22].dir_name.len() != "zig-cache"@.len());
        } else if j == 23 {
            assert(t[23].dir_name.len() != "zig-cache"@.len());
        } else if j == 24 {
            assert(t[24].dir_name.len() != "zig-cache"@.len());
        } else if j == 25 {
            assert(idx[0] == 25);
        } else if j == 26 {
            assert(t[26].dir_name.len() != "zig-cache"@.len());
        } else if j == 27 {
            assert(t[27].dir_name.len() != "zig-cache"@.len());
        } else if j == 28 {
            assert(t[28].dir_name.len() != "zig-cache"@.len());
        }
    }
    lemma_first_match_among(t, "zig-cache"@, siblings, idx);
    let sub = Seq::new(idx.len(), |a: int| t[idx[a]]);
    assert(sub =~= seq![entry("Zig"@, "zig-cache"@, None, "zig build"@)]);
    reveal_with_fuel(first_match, 2);
}

/// A directory named "zig-out" is always recorded as "Zig output".
pub proof fn lemma_detects_zig_out(siblings: Seq<(Seq<char>, bool)>)
    ensures
        first_match(detector_table(), "zig-out"@, siblings) == Some(entry("Zig output"@, "zig-out"@, None, "zig build"@)),
{
    let t = detector_table();
    reveal_strlit("node_modules");
    reveal_strlit("target");
    reveal_strlit(".venv");
    reveal_strlit("venv");
    reveal_strlit("__pycache__");
    reveal_strlit(".gradle");
    reveal_strlit("build");
    reveal_strlit("DerivedData");
    reveal_strlit("Pods");
    reveal_strlit("bin");
    reveal_strlit("obj");
    reveal_strlit(".next");
    reveal_strlit(".nuxt");
    reveal_strlit(".terraform");
    reveal_strlit("cmake-build-debug");
    reveal_strlit(".idea");
    reveal_strlit("vendor");
    reveal_strlit(".bundle");
    reveal_strlit("_build");
    reveal_strlit("deps");
    reveal_strlit(".stack-work");
    reveal_strlit("dist-newstyle");
    reveal_strlit("zig-cache");
    reveal_strlit("zig-out");
    reveal_strlit(".dart_tool");
    reveal_strlit(".build");
    let idx = seq![26int];
    assert forall|j: int| 0 <= j < t.len() && (#[trigger] t[j]).dir_name == "zig-out"@ implies idx.contains(j) by {
        if j == 0 {
            assert(t[0].dir_name.len() != "zig-out"@.len());
        } else if j == 1 {
            assert(t[1].dir_name.len() != "zig-out"@.len());
        } else if j == 2 {
            assert(t[2].dir_name.len() != "zig-out"@.len());
        } else if j == 3 {
            assert(t[3].dir_name.len() != "zig-out"@.len());
        } else if j == 4 {
            assert(t[4].dir_name.len() != "zig-out"@.len());
        } else if j == 5 {
            assert(t[5].dir_name[0] != "zig-out"@[0]);
        } else if j == 6 {
            assert(t[6].dir_name.len() != "zig-out"@.len());
        } else if j == 7 {
            assert(t[7].dir_name.len() != "zig-out"@.len());
        } else if j == 8 {
            assert(t[8].dir_name.len() != "zig-out"@.len());
        } else if j == 9 {
            assert(t[9].dir_name.len() != "zig-out"@.len());
        } else if j == 10 {
            assert(t[10].dir_name.len() != "zig-out"@.len());
        } else if j == 11 {
            assert(t[11].dir_name.len() != "zig-out"@.len());
        } else if j == 12 {
            assert(t[12].dir_name.len() != "zig-out"@.len());
        } else if j == 13 {
            assert(t[13].dir_name.len() != "zig-out"@.len());
        } else if j == 14 {
            assert(t[14].dir_name.len() != "zig-out"@.len());
        } else if j == 15 {
            assert(t[15].dir_name.len() != "zig-out"@.len());
        } else if j == 16 {
            assert(t[16].dir_name.len() != "zig-out"@.len());
        } else if j == 17 {
            assert(t[17].dir_name.len() != "zig-out"@.len());
        } else if j == 18 {
            assert(t[18].dir_name.len() != "zig-out"@.len());
        } else if j == 19 {
            assert(t[19].dir_name.len() != "zig-out"@.len());
        } else if j == 20 {
            assert(t[20].dir_name[0] != "zig-out"@[0]);
        } else if j == 21 {
            assert(t[21].dir_name.len() != "zig-out"@.len());
        } else if j == 22 {
            assert(t[22].dir_name.len() != "zig-out"@.len());
        } else if j == 23 {
            assert(t[23].dir_name.len() != "zig-out"@.len());
        } else if j == 24 {
            assert(t[24].dir_name.len() != "zig-out"@.len());
        } else if j == 25 {
            assert(t[25].dir_name.len() != "zig-out"@.len());
        } else if j == 26 {
            assert(idx[0] == 26);
        } else if j == 27 {
            assert(t[27].dir_name.len() != "zig-out"@.len());
        } else if j == 28 {
            assert(t[28].dir_name.len() != "zig-out"@.len());
        }
    }
    lemma_first_match_among(t, "zig-out"@, siblings, idx);
    let sub = Seq::new(idx.len(), |a: int| t[idx[a]]);
    assert(sub =~= seq![entry("Zig output"@, "zig-out"@, None, "zig build"@)]);
    reveal_with_fuel(first_match, 2);
}

/// A directory named ".dart_tool" is recorded as "Flutter / Dart" when a file
/// named "pubspec.yaml" is beside it; otherwise it is not recorded.
pub proof fn lemma_detects_dot_dart_tool(siblings: Seq<(Seq<char>, bool)>)
    ensures
        first_match(detector_table(), ".dart_tool"@, siblings) == if file_named(siblings, "pubspec.yaml"@) {
                Some(entry("Flutter / Dart"@, ".dart_tool"@, Some("pubspec.yaml"@), "flutter pub get / dart pub get"@))
            } else {
                None
            },
{
    let t = detector_table();
    reveal_strlit("node_modules");
    reveal_strlit("target");
    reveal_strlit(".venv");
    reveal_strlit("venv");
    reveal_strlit("__pycache__");
    reveal_strlit(".gradle");
    reveal_strlit("build");
    reveal_strlit("DerivedData");
    reveal_strlit("Pods");
    reveal_strlit("bin");
    reveal_strlit("obj");
    reveal_strlit(".next");
    reveal_strlit(".nuxt");
    reveal_strlit(".terraform");
    reveal_strlit("cmake-build-debug");
    reveal_strlit(".idea");
    reveal_strlit("vendor");
    reveal_strlit(".bundle");
    reveal_strlit("_build");
    reveal_strlit("deps");
    reveal_strlit(".stack-work");
    reveal_strlit("dist-newstyle");
    reveal_strlit("zig-cache");
    reveal_strlit("zig-out");
    reveal_strlit(".dart_tool");
    reveal_strlit(".build");
    let idx = seq![27int];
    assert forall|j: int| 0 <= j < t.len() && (#[trigger] t[j]).dir_name == ".dart_tool"@ implies idx.contains(j) by {
        if j == 0 {
            assert(t[0].dir_name.len() != ".dart_tool"@.len());
        } else if j == 1 {
            assert(t[1].dir_name.len() != ".dart_tool"@.len());
        } else if j == 2 {
            assert(t[2].dir_name.len() != ".dart_tool"@.len());
        } else if j == 3 {
            assert(t[3].dir_name.len() != ".dart_tool"@.len());
        } else if j == 4 {
            assert(t[4].dir_name.len() != ".dart_tool"@.len());
        } else if j == 5 {
            assert(t[5].dir_name.len() != ".dart_tool"@.len());
        } else if j == 6 {
            assert(t[6].dir_name.len() != ".dart_tool"@.len());
        } else if j == 7 {
            assert(t[7].dir_name.len() != ".dart_tool"@.len());
        } else if j == 8 {
            assert(t[8].dir_name.len() != ".dart_tool"@.len());
        } else if j == 9 {
            assert(t[9].dir_name.len() != ".dart_tool"@.len());
        } else if j == 10 {
            assert(t[10].dir_name.len() != ".dart_tool"@.len());
        } else if j == 11 {
            assert(t[11].dir_name.len() != ".dart_tool"@.len());
        } else if j == 12 {
            assert(t[12].dir_name.len() != ".dart_tool"@.len());
        } else if j == 13 {
            assert(t[13].dir_name.len() != ".dart_tool"@.len());
        } else if j == 14 {
            assert(t[14].dir_name.len() != ".dart_tool"@.len());
        } else if j == 15 {
            assert(t[15].dir_name[1] != ".dart_tool"@[1]);
        } else if j == 16 {
            assert(t[16].dir_name.len() != ".dart_tool"@.len());
        } else if j == 17 {
            assert(t[17].dir_name.len() != ".dart_tool"@.len());
        } else if j == 18 {
            assert(t[18].dir_name.len() != ".dart_tool"@.len());
        } else if j == 19 {
            assert(t[19].dir_name.len() != ".dart_tool"@.len());
        } else if j == 20 {
            assert(t[20].dir_name.len() != ".dart_tool"@.len());
        } else if j == 21 {
            assert(t[21].dir_name.len() != ".dart_tool"@.len());
        } else if j == 22 {
            assert(t[22].dir_name.len() != ".dart_tool"@.len());
        } else if j == 23 {
            assert(t[23].dir_name.len() != ".dart_tool"@.len());
        } else if j == 24 {
            assert(t[24].dir_name.len() != ".dart_tool"@.len());
        } else if j == 25 {
            assert(t[25].dir_name.len() != ".dart_tool"@.len());
        } else if j == 26 {
            assert(t[26].dir_name.len() != ".dart_tool"@.len());
        } else if j == 27 {
            assert(idx[0] == 27);
        } else if j == 28 {
            assert(t[28].dir_name.len() != ".dart_tool"@.len());
        }
    }
    lemma_first_match_among(t, ".dart_tool"@, siblings, idx);
    let sub = Seq::new(idx.len(), |a: int| t[idx[a]]);
    assert(sub =~= seq![entry("Flutter / Dart"@, ".dart_tool"@, Some("pubspec.yaml"@), "flutter pub get / dart pub get"@)]);
    reveal_strlit("pubspec.yaml");
    lemma_exact_marker_files(siblings, "pubspec.yaml"@);
    reveal_with_fuel(first_match, 2);
}

/// A directory named ".build" is recorded as "Swift Package Manager" when a
/// file named "Package.swift" is beside it; otherwise it is not recorded.
pub proof fn lemma_detects_dot_build(siblings: Seq<(Seq<char>, bool)>)
    ensures
        first_match(detector_table(), ".build"@, siblings) == if file_named(siblings, "Package.swift"@) {
                Some(entry("Swift Package Manager"@, ".build"@, Some("Package.swift"@), "swift build"@))
            } else {
                None
            },
{
    let t = detector_table();
    reveal_strlit("node_modules");
    reveal_strlit("target");
    reveal_strlit(".venv");
    reveal_strlit("venv");
    reveal_strlit("__pycache__");
    reveal_strlit(".gradle");
    reveal_strlit("build");
    reveal_strlit("DerivedData");
    reveal_strlit("Pods");
    reveal_strlit("bin");
    reveal_strlit("obj");
    reveal_strlit(".next");
    reveal_strlit(".nuxt");
    reveal_strlit(".terraform");
    reveal_strlit("cmake-build-debug");
    reveal_strlit(".idea");
    reveal_strlit("vendor");
    reveal_strlit(".bundle");
    reveal_strlit("_build");
    reveal_strlit("deps");
    reveal_strlit(".stack-work");
    reveal_strlit("dist-newstyle");
    reveal_strlit("zig-cache");
    reveal_strlit("zig-out");
    reveal_strlit(".dart_tool");
    reveal_strlit(".build");
    let idx = seq![28int];
    assert forall|j: int| 0 <= j < t.len() && (#[trigger] t[j]).dir_name == ".build"@ implies idx.contains(j) by {
        if j == 0 {
            assert(t[0].dir_name.len() != ".build"@.len());
        } else if j == 1 {
            assert(t[1].dir_name[0] != ".build"@[0]);
        } else if j == 2 {
            assert(t[2].dir_name.len() != ".build"@.len());
        } else if j == 3 {
            assert(t[3].dir_name.len() != ".build"@.len());
        } else if j == 4 {
            assert(t[4].dir_name.len() != ".build"@.len());
        } else if j == 5 {
            assert(t[5].dir_name.len() != ".build"@.len());
        } else if j == 6 {
            assert(t[6].dir_name.len() != ".build"@.len());
        } else if j == 7 {
            assert(t[7].dir_name.len() != ".build"@.len());
        } else if j == 8 {
            assert(t[8].dir_name[0] != ".build"@[0]);
        } else if j == 9 {
            assert(t[9].dir_name.len() != ".build"@.len());
        } else if j == 10 {
            assert(t[10].dir_name.len() != ".build"@.len());
        } else if j == 11 {
            assert(t[11].dir_name.len() != ".build"@.len());
        } else if j == 12 {
            assert(t[12].dir_name.len() != ".build"@.len());
        } else if j == 13 {
            assert(t[13].dir_name.len() != ".build"@.len());
        } else if j == 14 {
            assert(t[14].dir_name.len() != ".build"@.len());
        } else if j == 15 {
            assert(t[15].dir_name.len() != ".build"@.len());
        } else if j == 16 {
            assert(t[16].dir_name.len() != ".build"@.len());
        } else if j == 17 {
            assert(t[17].dir_name.len() != ".build"@.len());
        } else if j == 18 {
            assert(t[18].dir_name[0] != ".build"@[0]);
        } else if j == 19 {
            assert(t[19].dir_name[0] != ".build"@[0]);
        } else if j == 20 {
            assert(t[20].dir_name.len() != ".build"@.len());
        } else if j == 21 {
            assert(t[21].dir_name[0] != ".build"@[0]);
        } else if j == 22 {
            assert(t[22].dir_name.len() != ".build"@.len());
        } else if j == 23 {
            assert(t[23].dir_name.len() != ".build"@.len());
        } else if j == 24 {
            assert(t[24].dir_name.len() != ".build"@.len());
        } else if j == 25 {
            assert(t[25].dir_name.len() != ".build"@.len());
        } else if j == 26 {
            assert(t[26].dir_name.len() != ".build"@.len());
        } else if j == 27 {
            assert(t[27].dir_name.len() != ".build"@.len());
        } else if j == 28 {
            assert(idx[0] == 28);
        }
    }
    lemma_first_match_among(t, ".build"@, siblings, idx);
    let sub = Seq::new(idx.len(), |a: int| t[idx[a]]);
    assert(sub =~= seq![entry("Swift Package Manager"@, ".build"@, Some("Package.swift"@), "swift build"@)]);
    reveal_strlit("Package.swift");
    lemma_exact_marker_files(siblings, "Package.swift"@);
    reveal_with_fuel(first_match, 2);
}

/// A directory whose name no detector knows is never recorded.
pub proof fn lemma_unknown_names_never_detected(name: Seq<char>, siblings: Seq<(Seq<char>, bool)>)
    requires
        name != "node_modules"@,
        name != "target"@,
        name != ".venv"@,
        name != "venv"@,
        name != "__pycache__"@,
        name != ".gradle"@,
        name != "build"@,
        name != "DerivedData"@,
        name != "Pods"@,
        name != "bin"@,
        name != "obj"@,
        name != ".next"@,
        name != ".nuxt"@,
        name != ".terraform"@,
        name != "cmake-build-debug"@,
        name != ".idea"@,
        name != "vendor"@,
        name != ".bundle"@,
        name != "_build"@,
        name != "deps"@,
        name != ".stack-work"@,
        name != "dist-newstyle"@,
        name != "zig-cache"@,
        name != "zig-out"@,
        name != ".dart_tool"@,
        name != ".build"@,
    ensures
        first_match(detector_table(), name, siblings) is None,
{
    let t = detector_table();
    assert forall|j: int| 0 <= j < t.len() implies !detector_applies(#[trigger] t[j], name, siblings) by {
        if j == 0 {
            assert(t[0].dir_name == "node_modules"@);
        } else if j == 1 {
            assert(t[1].dir_name == "target"@);
        } else if j == 2 {
            assert(t[2].dir_name == ".venv"@);
        } else if j == 3 {
            assert(t[3].dir_name == "venv"@);
        } else if j == 4 {
            assert(t[4].dir_name == "__pycache__"@);
        } else if j == 5 {
            assert(t[5].dir_name == ".gradle"@);
        } else if j == 6 {
            assert(t[6].dir_name == "build"@);
        } else if j == 7 {
            assert(t[7].dir_name == "build"@);
        } else if j == 8 {
            assert(t[8].dir_name == "target"@);
        } else if j == 9 {
            assert(t[9].dir_name == "DerivedData"@);
        } else if j == 10 {
            assert(t[10].dir_name == "Pods"@);
        } else if j == 11 {
            assert(t[11].dir_name == "bin"@);
        } else if j == 12 {
            assert(t[12].dir_name == "obj"@);
        } else if j == 13 {
            assert(t[13].dir_name == ".next"@);
        } else if j == 14 {
            assert(t[14].dir_name == ".nuxt"@);
        } else if j == 15 {
            assert(t[15].dir_name == ".terraform"@);
        } else if j == 16 {
            assert(t[16].dir_name == "cmake-build-debug"@);
        } else if j == 17 {
            assert(t[17].dir_name == ".idea"@);
        } else if j == 18 {
            assert(t[18].dir_name == "vendor"@);
        } else if j == 19 {
            assert(t[19].dir_name == "vendor"@);
        } else if j == 20 {
            assert(t[20].dir_name == ".bundle"@);
        } else if j == 21 {
            assert(t[21].dir_name == "_build"@);
        } else if j == 22 {
            assert(t[22].dir_name == "deps"@);
        } else if j == 23 {
            assert(t[23].dir_name == ".stack-work"@);
        } else if j == 24 {
            assert(t[24].dir_name == "dist-newstyle"@);
        } else if j == 25 {
            assert(t[25].dir_name == "zig-cache"@);
        } else if j == 26 {
            assert(t[26].dir_name == "zig-out"@);
        } else if j == 27 {
            assert(t[27].dir_name == ".dart_tool"@);
        } else if j == 28 {
            assert(t[28].dir_name == ".build"@);
        }
    }
    lemma_first_match_is_first(t, name, siblings);
}

} // verus!
