use reclaim::ignore::parse_ignore_patterns;
use reclaim::model::Finding;
use reclaim::triage::{
    drop_recent, min_size_bytes, retain_min_size, select_by_indices, sort_findings,
    summarize_cleanup, SortBy,
};

const DAY: u64 = 86_400;
const NOW: u64 = 1_700_000_000;

fn finding(path: &str, label: &str, size: u64, modified: Option<u64>) -> Finding {
    Finding {
        path: path.to_string(),
        label: label.to_string(),
        size_bytes: size,
        last_modified_secs: modified,
        regenerate_hint: "hint".to_string(),
    }
}

fn paths(fs: &[Finding]) -> Vec<&str> {
    fs.iter().map(|f| f.path.as_str()).collect()
}

#[test]
fn age_days_counts_whole_days() {
    let f = finding("a", "L", 1, Some(NOW - 5 * DAY - 10));
    assert_eq!(f.age_days_at(NOW), Some(5));
    assert_eq!(f.age_days_at(NOW - 5 * DAY - 11), Some(0));
    assert_eq!(finding("b", "L", 1, None).age_days_at(NOW), None);
}

#[test]
fn age_days_against_the_clock() {
    assert_eq!(finding("b", "L", 1, None).age_days(), None);
    // A directory modified at the epoch is decades old today.
    assert!(finding("c", "L", 1, Some(0)).age_days().unwrap() > 10_000);
}

#[test]
fn min_size_threshold_in_bytes() {
    assert_eq!(min_size_bytes(0), Some(0));
    assert_eq!(min_size_bytes(1), Some(1_048_576));
    assert_eq!(min_size_bytes(3), Some(3 * 1_048_576));
    assert_eq!(min_size_bytes(u64::MAX), None);
}

#[test]
fn min_size_filter_keeps_order_and_large_findings() {
    let fs = vec![
        finding("a", "L", 2_000_000, None),
        finding("b", "L", 1_000, None),
        finding("c", "L", 1_048_576, None),
    ];
    let kept = retain_min_size(fs, 1_048_576);
    assert_eq!(paths(&kept), vec!["a", "c"]);
}

#[test]
fn skip_recent_drops_young_findings_only() {
    let fs = vec![
        finding("old", "L", 1, Some(NOW - 5 * DAY)),
        finding("new", "L", 1, Some(NOW)),
        finding("unknown", "L", 1, None),
    ];
    let kept = drop_recent(fs.clone(), 3, Some(NOW));
    assert_eq!(paths(&kept), vec!["old", "unknown"]);
    let kept = drop_recent(fs, 3, None);
    assert_eq!(kept.len(), 3);
}

#[test]
fn sort_by_size_is_largest_first_and_stable() {
    let fs = vec![
        finding("a", "L", 10, None),
        finding("b", "L", 30, None),
        finding("c", "L", 10, None),
        finding("d", "L", 20, None),
    ];
    let sorted = sort_findings(&fs, SortBy::Size, Some(NOW));
    assert_eq!(paths(&sorted), vec!["b", "d", "a", "c"]);
}

#[test]
fn sort_by_age_is_oldest_first_unknown_last() {
    let fs = vec![
        finding("unknown", "L", 1, None),
        finding("young", "L", 1, Some(NOW - DAY)),
        finding("old", "L", 1, Some(NOW - 10 * DAY)),
        finding("young2", "L", 1, Some(NOW - DAY - 5)),
    ];
    let sorted = sort_findings(&fs, SortBy::Age, Some(NOW));
    assert_eq!(paths(&sorted), vec!["old", "young", "young2", "unknown"]);
}

#[test]
fn selection_follows_indices() {
    let fs = vec![finding("a", "L", 1, None), finding("b", "L", 2, None), finding("c", "L", 3, None)];
    let picked = select_by_indices(&fs, &vec![2, 0]);
    assert_eq!(paths(&picked), vec!["c", "a"]);
    assert!(select_by_indices(&fs, &vec![]).is_empty());
}

#[test]
fn cleanup_summary_counts_freed_and_failed() {
    assert_eq!(summarize_cleanup(&vec![(100, true), (50, false), (7, true)]), Some((107, 1)));
    assert_eq!(summarize_cleanup(&vec![]), Some((0, 0)));
    assert_eq!(summarize_cleanup(&vec![(u64::MAX, true), (1, true)]), None);
    assert_eq!(summarize_cleanup(&vec![(u64::MAX, true), (1, false)]), Some((u64::MAX, 1)));
}

#[test]
fn ignore_file_patterns() {
    let patterns = parse_ignore_patterns("proj1\n# some comment\n  \n");
    assert_eq!(patterns, vec!["proj1".to_string()]);
    let patterns = parse_ignore_patterns("  a b \r\n\n#x\n c#d\t");
    assert_eq!(patterns, vec!["a b".to_string(), "c#d".to_string()]);
    assert!(parse_ignore_patterns("").is_empty());
}

#[test]
fn sort_by_age_without_clock_keeps_order() {
    let fs = vec![
        finding("a", "L", 1, Some(NOW - 9 * DAY)),
        finding("b", "L", 1, None),
        finding("c", "L", 1, Some(NOW - 90 * DAY)),
    ];
    let sorted = sort_findings(&fs, SortBy::Age, None);
    assert_eq!(paths(&sorted), vec!["a", "b", "c"]);
}
