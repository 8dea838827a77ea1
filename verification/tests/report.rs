use reclaim::model::Finding;
use reclaim::report::{
    age_text, breakdown, dir_word, picker_items, size_text, table_rows, total_size,
};

const NOW: u64 = 1_700_000_000;

fn finding(path: &str, label: &str, size: u64, modified: Option<u64>) -> Finding {
    Finding {
        path: path.to_string(),
        label: label.to_string(),
        size_bytes: size,
        last_modified_secs: modified,
        regenerate_hint: "hint".to_string(),
    }
}

#[test]
fn sizes_read_in_si_units() {
    assert_eq!(size_text(0), "0 B");
    assert_eq!(size_text(999), "999 B");
    assert_eq!(size_text(1_000_000), "1 MB");
    assert_eq!(size_text(1_500_000), "1.50 MB");
}

#[test]
fn ages_read_as_days() {
    assert_eq!(age_text(Some(0)), "today");
    assert_eq!(age_text(Some(1)), "1d ago");
    assert_eq!(age_text(Some(123)), "123d ago");
    assert_eq!(age_text(None), "-");
}

#[test]
fn directory_noun_agrees_with_count() {
    assert_eq!(dir_word(1), "directory");
    assert_eq!(dir_word(0), "directories");
    assert_eq!(dir_word(2), "directories");
}

#[test]
fn total_of_findings() {
    let fs = vec![finding("a", "X", 5, None), finding("b", "Y", 7, None)];
    assert_eq!(total_size(&fs), Some(12));
    assert_eq!(total_size(&vec![]), Some(0));
    assert_eq!(total_size(&vec![finding("a", "X", u64::MAX, None), finding("b", "X", 1, None)]), None);
}

#[test]
fn breakdown_groups_by_label_largest_first() {
    let fs = vec![
        finding("a", "Rust", 10, None),
        finding("b", "Node.js", 5, None),
        finding("c", "Rust", 20, None),
        finding("d", "Maven", 5, None),
        finding("e", "Node.js", 1, None),
        finding("f", "Go", 6, None),
    ];
    let rows = breakdown(&fs);
    let got: Vec<(&str, u64, usize)> =
        rows.iter().map(|r| (r.label.as_str(), r.size, r.count)).collect();
    assert_eq!(
        got,
        vec![("Rust", 30, 2), ("Go", 6, 1), ("Node.js", 6, 2), ("Maven", 5, 1)]
    );
}

#[test]
fn breakdown_ties_are_in_label_order() {
    let fs = vec![
        finding("a", "Zig", 5, None),
        finding("b", "CMake", 5, None),
        finding("c", "Nuxt", 5, None),
    ];
    let rows = breakdown(&fs);
    let labels: Vec<&str> = rows.iter().map(|r| r.label.as_str()).collect();
    assert_eq!(labels, vec!["CMake", "Nuxt", "Zig"]);
    let total: u64 = rows.iter().map(|r| r.size).sum();
    assert_eq!(Some(total), total_size(&fs));
    assert!(breakdown(&vec![]).is_empty());
}

#[test]
fn table_rows_show_size_age_and_hint() {
    let fs = vec![finding("/p/node_modules", "Node.js", 999, Some(NOW - 3 * 86_400))];
    let rows = table_rows(&fs, Some(NOW));
    assert_eq!(rows.len(), 1);
    assert_eq!(rows[0].size, "999 B");
    assert_eq!(rows[0].label, "Node.js");
    assert_eq!(rows[0].age, "3d ago");
    assert_eq!(rows[0].path, "/p/node_modules");
    assert_eq!(rows[0].regenerate_hint, "hint");
    assert_eq!(table_rows(&fs, None)[0].age, "-");
}

#[test]
fn picker_lines_are_padded_columns() {
    let fs = vec![finding("/p/node_modules", "Node.js", 999, None)];
    let items = picker_items(&fs);
    assert_eq!(items, vec![format!("{:<10} {:<22} {}", "999 B", "Node.js", "/p/node_modules")]);
    let long = vec![finding("/q", "A label longer than twenty-two", 1_500_000, None)];
    assert_eq!(
        picker_items(&long),
        vec![format!("{:<10} {:<22} {}", "1.50 MB", "A label longer than twenty-two", "/q")]
    );
}

