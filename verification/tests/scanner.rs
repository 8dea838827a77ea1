use reclaim::detectors::{detectors, skip_descending};
use reclaim::model::Finding;
use reclaim::scanner::{has_marker_sibling, measure, size_all, size_finding, Scanner, WalkStep};
use reclaim::walk::DirNode;
use std::collections::BTreeSet;

fn file(name: &str) -> (String, bool) {
    (name.to_string(), true)
}

fn dir(name: &str) -> (String, bool) {
    (name.to_string(), false)
}

/// An in-memory tree under `root` holding `files` (paths relative to `root`),
/// every directory with the entries of its parent, walked by the scanner.
fn walk(root: &str, files: &[&str], excludes: &[String]) -> Vec<(String, String, String)> {
    let mut file_set: BTreeSet<String> = BTreeSet::new();
    let mut dirs: BTreeSet<String> = BTreeSet::new();
    dirs.insert(root.to_string());
    for f in files {
        let full = format!("{}/{}", root, f);
        file_set.insert(full.clone());
        let mut cur = full.as_str();
        while let Some(idx) = cur.rfind('/') {
            cur = &cur[..idx];
            if cur.len() < root.len() {
                break;
            }
            dirs.insert(cur.to_string());
        }
    }
    fn parent_of(p: &str) -> &str {
        &p[..p.rfind('/').unwrap_or(0)]
    }
    fn name_of(p: &str) -> String {
        p[p.rfind('/').map(|i| i + 1).unwrap_or(0)..].to_string()
    }
    fn build(
        d: &str,
        root: &str,
        dirs: &BTreeSet<String>,
        files: &BTreeSet<String>,
    ) -> DirNode {
        let siblings: Vec<(String, bool)> = if d == root {
            Vec::new()
        } else {
            let parent = parent_of(d);
            files
                .iter()
                .filter(|f| parent_of(f) == parent)
                .map(|f| (name_of(f), true))
                .chain(dirs.iter().filter(|x| x.as_str() != root && parent_of(x) == parent).map(|x| (name_of(x), false)))
                .collect()
        };
        let children = dirs
            .iter()
            .filter(|x| x.as_str() != d && x.len() > d.len() && parent_of(x) == d)
            .map(|x| build(x, root, dirs, files))
            .collect();
        DirNode { path: d.to_string(), name: name_of(d), siblings, children }
    }
    let tree = build(root, root, &dirs, &file_set);
    let mut scanner = Scanner::new(excludes.to_vec());
    scanner.walk_tree(&tree);
    scanner.into_candidates()
}

const ROOT: &str = "/tmp/reclaim-test-root";

#[test]
fn marker_sibling_exact_filename_match() {
    assert!(has_marker_sibling(&vec![file("Cargo.toml")], "Cargo.toml"));
}

#[test]
fn marker_sibling_missing_returns_false() {
    assert!(!has_marker_sibling(&vec![], "Cargo.toml"));
}

#[test]
fn marker_sibling_extension_pattern_matches_any_basename() {
    assert!(has_marker_sibling(&vec![file("MyApp.csproj")], ".csproj"));
}

#[test]
fn marker_sibling_extension_pattern_does_not_match_bare_dotfile() {
    // A file literally named ".csproj" (no basename) should not count —
    // it's not a project file, it's an odd dotfile.
    assert!(!has_marker_sibling(&vec![file(".csproj")], ".csproj"));
}

#[test]
fn marker_sibling_unreadable_parent_returns_false() {
    // The parent "/this/path/should/not/exist/hopefully" cannot be read, so
    // its listing is empty and fails closed.
    let unreadable_listing: Vec<(String, bool)> = Vec::new();
    assert!(!has_marker_sibling(&unreadable_listing, "Cargo.toml"));
}

#[test]
fn finds_node_modules_without_marker() {
    let candidates = walk(ROOT, &["proj/node_modules/pkg/index.js"], &[]);
    assert_eq!(candidates.len(), 1);
    assert_eq!(candidates[0].0, "Node.js");
    assert_eq!(candidates[0].2, format!("{}/{}", ROOT, "proj/node_modules"));
}

#[test]
fn finds_rust_target_only_with_cargo_toml_marker() {
    let candidates = walk(ROOT, &["proj/Cargo.toml", "proj/target/debug/binary"], &[]);
    assert_eq!(candidates.len(), 1);
    assert_eq!(candidates[0].0, "Rust");
}

#[test]
fn ignores_generic_build_dir_without_marker() {
    // A "build" directory with no build.gradle / build.gradle.kts
    // sibling should never be flagged.
    let candidates = walk(ROOT, &["proj/build/output.txt"], &[]);
    assert!(candidates.is_empty());
}

#[test]
fn does_not_descend_into_matched_directory() {
    let candidates = walk(ROOT, &["proj/node_modules/nested/node_modules/x.js"], &[]);
    assert_eq!(candidates.len(), 1);
}

#[test]
fn skips_descending_into_git_directory() {
    let candidates = walk(ROOT, &[".git/node_modules/x.js"], &[]);
    assert!(candidates.is_empty());
}

#[test]
fn sizes_findings_correctly() {
    let candidates = walk(ROOT, &["proj/node_modules/a.bin", "proj/node_modules/b.bin"], &[]);
    assert_eq!(candidates.len(), 1);
    let now = 1_700_000_000u64;
    let findings: Vec<Finding> = candidates
        .into_iter()
        .map(|c| size_finding(c, &vec![(1000, Some(now)), (2000, Some(now - 5))]).unwrap())
        .collect();

    assert_eq!(findings.len(), 1);
    assert_eq!(findings[0].size_bytes, 3000);
    assert!(findings[0].last_modified_secs.is_some());
}

#[test]
fn finds_flutter_dart_tool() {
    let candidates = walk(
        ROOT,
        &["flutter_proj/pubspec.yaml", "flutter_proj/.dart_tool/package_config.json"],
        &[],
    );
    assert_eq!(candidates.len(), 1);
    assert_eq!(candidates[0].0, "Flutter / Dart");
}

#[test]
fn finds_swift_pm_build() {
    let candidates = walk(ROOT, &["swift_proj/Package.swift", "swift_proj/.build/debug/foo"], &[]);
    assert_eq!(candidates.len(), 1);
    assert_eq!(candidates[0].0, "Swift Package Manager");
}

#[test]
fn excludes_paths_properly() {
    let files = ["proj1/node_modules/x.js", "proj2/node_modules/x.js"];

    // Exclude proj1 entirely
    let candidates = walk(ROOT, &files, &["proj1".to_string()]);
    assert_eq!(candidates.len(), 1);
    assert_eq!(candidates[0].2, format!("{}/{}", ROOT, "proj2/node_modules"));

    // Exclude node_modules
    let candidates = walk(ROOT, &files, &["node_modules".to_string()]);
    assert!(candidates.is_empty());
}

#[test]
fn exclude_patterns_compare_with_forward_slashes() {
    let mut scanner = Scanner::new(vec!["proj1\\node_modules".to_string()]);
    let step = scanner.visit_dir("C:\\work\\proj1\\node_modules", "node_modules", &vec![]);
    assert_eq!(step, WalkStep::SkipSubtree);
    assert!(scanner.into_candidates().is_empty());
}

#[test]
fn visit_records_first_matching_detector() {
    let mut scanner = Scanner::new(vec![]);
    let siblings = vec![file("pom.xml"), file("Cargo.toml")];
    let step = scanner.visit_dir("/w/proj/target", "target", &siblings);
    assert_eq!(step, WalkStep::SkipSubtree);
    let c = scanner.into_candidates();
    assert_eq!(c.len(), 1);
    assert_eq!(c[0].0, "Rust");
    assert_eq!(c[0].1, "cargo build");
    assert_eq!(c[0].2, "/w/proj/target");
}

#[test]
fn maven_target_is_found_by_pom() {
    let mut scanner = Scanner::new(vec![]);
    let step = scanner.visit_dir("/w/proj/target", "target", &vec![file("pom.xml")]);
    assert_eq!(step, WalkStep::SkipSubtree);
    assert_eq!(scanner.into_candidates()[0].0, "Maven");
}

#[test]
fn plain_directories_are_descended() {
    let mut scanner = Scanner::new(vec![]);
    assert_eq!(scanner.visit_dir("/w/src", "src", &vec![]), WalkStep::Descend);
    assert_eq!(scanner.visit_dir("/w/target", "target", &vec![]), WalkStep::Descend);
    assert!(scanner.into_candidates().is_empty());
}

#[test]
fn hg_and_svn_are_not_descended() {
    let mut scanner = Scanner::new(vec![]);
    assert_eq!(scanner.visit_dir("/w/.hg", ".hg", &vec![]), WalkStep::SkipSubtree);
    assert_eq!(scanner.visit_dir("/w/.svn", ".svn", &vec![]), WalkStep::SkipSubtree);
    assert!(scanner.into_candidates().is_empty());
}

#[test]
fn siblings_wanted_only_for_marker_detectors() {
    let scanner = Scanner::new(vec![]);
    assert!(scanner.wants_siblings("build"));
    assert!(scanner.wants_siblings("target"));
    assert!(!scanner.wants_siblings("node_modules"));
    assert!(!scanner.wants_siblings("src"));
}

#[test]
fn empty_exclude_pattern_excludes_everything() {
    let mut scanner = Scanner::new(vec![String::new()]);
    assert_eq!(scanner.visit_dir("/w/node_modules", "node_modules", &vec![]), WalkStep::SkipSubtree);
    assert!(scanner.into_candidates().is_empty());
}

#[test]
fn extension_marker_with_inner_dot_is_exact() {
    assert!(has_marker_sibling(&vec![file("build.gradle.kts")], "build.gradle.kts"));
    assert!(!has_marker_sibling(&vec![file("x.build.gradle.kts")], "build.gradle.kts"));
    assert!(!has_marker_sibling(&vec![file("a.b.c")], ".b.c"));
    assert!(has_marker_sibling(&vec![file(".b.c")], ".b.c"));
}

#[test]
fn measure_adds_sizes_and_keeps_newest_time() {
    assert_eq!(measure(&vec![]), Some((0, None)));
    assert_eq!(measure(&vec![(5, None), (7, Some(30)), (1, Some(20))]), Some((13, Some(30))));
    assert_eq!(measure(&vec![(u64::MAX, None), (1, None)]), None);
    assert!(size_finding(
        ("L".to_string(), "H".to_string(), "P".to_string()),
        &vec![(u64::MAX, None), (1, None)]
    )
    .is_none());
}

#[test]
fn detector_table_is_complete() {
    let ds = detectors();
    assert_eq!(ds.len(), 29);
    assert_eq!(ds[0].label, "Node.js");
    assert_eq!(ds[0].dir_name, "node_modules");
    assert_eq!(ds[0].marker_sibling, None);
    assert_eq!(ds[1].marker_sibling, Some("Cargo.toml"));
    assert_eq!(ds[28].label, "Swift Package Manager");
    assert_eq!(skip_descending(), vec![".git", ".hg", ".svn"]);
}

#[test]
fn directory_named_like_marker_does_not_count() {
    assert!(!has_marker_sibling(&vec![dir("Cargo.toml")], "Cargo.toml"));
    assert!(!has_marker_sibling(&vec![dir("MyApp.csproj")], ".csproj"));
    assert!(has_marker_sibling(&vec![dir("Cargo.toml"), file("Cargo.toml")], "Cargo.toml"));
    // A "Cargo.toml" directory beside "target" does not make it a Rust target.
    let candidates = walk(ROOT, &["proj/Cargo.toml/readme.txt", "proj/target/debug/binary"], &[]);
    assert!(candidates.is_empty());
}

#[test]
fn sizing_keeps_candidate_order() {
    let candidates = vec![
        ("A".to_string(), "ha".to_string(), "/a".to_string()),
        ("B".to_string(), "hb".to_string(), "/b".to_string()),
    ];
    let files = vec![vec![(3, Some(9))], vec![(4, None), (5, Some(1))]];
    let fs = size_all(&candidates, &files).unwrap();
    assert_eq!(fs.len(), 2);
    assert_eq!((fs[0].label.as_str(), fs[0].path.as_str(), fs[0].size_bytes), ("A", "/a", 3));
    assert_eq!(fs[0].last_modified_secs, Some(9));
    assert_eq!((fs[1].label.as_str(), fs[1].regenerate_hint.as_str(), fs[1].size_bytes), ("B", "hb", 9));
    assert_eq!(fs[1].last_modified_secs, Some(1));
    assert!(size_all(&candidates, &vec![vec![], vec![(u64::MAX, None), (1, None)]]).is_none());
}

#[test]
fn more_excludes_never_add_findings() {
    let files = ["a/node_modules/x.js", "b/node_modules/y.js", "b/c/venv/z.py"];
    let few = walk(ROOT, &files, &["a/".to_string()]);
    let many = walk(ROOT, &files, &["a/".to_string(), "venv".to_string()]);
    assert_eq!(few.len(), 2);
    assert_eq!(many.len(), 1);
    assert!(many.iter().all(|m| few.contains(m)));
}
