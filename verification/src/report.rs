//! What the report shows of the findings: sizes in human form, ages, the
//! totals, and the breakdown by ecosystem.

use vstd::prelude::*;
use crate::model::Finding;
use crate::triage::age_if_known;
use crate::order::{int_keys, is_stable_desc_order, lists, stable_desc_order};
use crate::text::{
    chars_of, decimal, lemma_lex_asymmetric, lemma_lex_total, lemma_lex_transitive, lex_less,
    lex_lt, pad_right, push_decimal, push_padded, push_str, same_chars, string_from_chars,
};

verus! {

/// What `humansize::format_size` makes of `bytes` with the `DECIMAL` options.
pub uninterp spec fn decimal_size_text(bytes: u64) -> Seq<char>;

/// `humansize::format_size(bytes, humansize::DECIMAL)`: the size in SI units
/// with up to two decimal places ("1.50 MB"). Claimed: the text is a function
/// of `bytes` alone, and below 1000 it is the plain number of bytes followed
/// by " B" (no scaling happens and the whole value is printed without a
/// fraction). How larger sizes are rounded is left unsaid.
#[verifier::external_body]
fn format_size_decimal(bytes: u64) -> (s: String)
    ensures
        s@ == decimal_size_text(bytes),
        bytes < 1000 ==> s@ == decimal(bytes as nat) + seq![' ', 'B'],
{
    humansize::format_size(bytes, humansize::DECIMAL)
}

/// A size in SI units with up to two decimal places, as the report shows it.
pub fn size_text(bytes: u64) -> (s: String)
    ensures
        s@ == decimal_size_text(bytes),
        bytes < 1000 ==> s@ == decimal(bytes as nat) + seq![' ', 'B'],
{
    format_size_decimal(bytes)
}

/// How an age in days reads: "today", "<d>d ago", or "-" when unknown.
pub open spec fn age_label(age: Option<u64>) -> Seq<char> {
    match age {
        Some(d) => if d == 0 {
            "today"@
        } else {
            decimal(d as nat) + "d ago"@
        },
        None => "-"@,
    }
}

/// The text for an age in days.
pub fn age_text(age: Option<u64>) -> (s: String)
    ensures
        s@ == age_label(age),
{
    match age {
        Some(d) => {
            if d == 0 {
                String::from_str("today")
            } else {
                let mut cs: Vec<char> = Vec::new();
                push_decimal(d, &mut cs);
                push_str(&mut cs, "d ago");
                string_from_chars(&cs)
            }
        },
        None => String::from_str("-"),
    }
}

/// The noun for a number of directories.
pub fn dir_word(count: usize) -> (w: &'static str)
    ensures
        w@ == (if count == 1 {
            "directory"@
        } else {
            "directories"@
        }),
{
    if count == 1 {
        "directory"
    } else {
        "directories"
    }
}

/// The total size of the findings.
pub open spec fn sizes_total(fs: Seq<Finding>) -> int
    decreases fs.len(),
{
    if fs.len() == 0 {
        0
    } else {
        sizes_total(fs.drop_last()) + fs.last().size_bytes
    }
}

proof fn lemma_sizes_total_prefix(fs: Seq<Finding>, i: int)
    requires
        0 <= i <= fs.len(),
    ensures
        sizes_total(fs.take(i)) <= sizes_total(fs),
    decreases fs.len() - i,
{
    if i < fs.len() {
        lemma_sizes_total_prefix(fs, i + 1);
        assert(fs.take(i + 1).drop_last() =~= fs.take(i));
    } else {
        assert(fs.take(i) =~= fs);
    }
}

/// The total size of the findings; `None` when it does not fit in 64 bits.
pub fn total_size(findings: &Vec<Finding>) -> (r: Option<u64>)
    ensures
        r is None <==> sizes_total(findings@) > u64::MAX,
        r matches Some(t) ==> t == sizes_total(findings@),
{
    let mut t: u64 = 0;
    let mut i: usize = 0;
    while i < findings.len()
        invariant
            i <= findings.len(),
            t == sizes_total(findings@.take(i as int)),
        decreases findings.len() - i,
    {
        assert(findings@.take(i + 1).drop_last() =~= findings@.take(i as int));
        match t.checked_add(findings[i].size_bytes) {
            Some(s) => {
                t = s;
            },
            None => {
                proof {
                    lemma_sizes_total_prefix(findings@, i + 1);
                }
                return None;
            },
        }
        i = i + 1;
    }
    assert(findings@.take(findings.len() as int) =~= findings@);
    Some(t)
}

/// One line of the table of findings, before colouring.
pub struct TableRow {
    /// The size in SI units.
    pub size: String,
    /// The ecosystem.
    pub label: String,
    /// The age ("today", "<d>d ago", "-").
    pub age: String,
    /// Where the directory is.
    pub path: String,
    /// How to regenerate it.
    pub regenerate_hint: String,
}

/// The age of `f` as the table shows it, at the clock reading `now`.
pub open spec fn age_shown(f: Finding, now: Option<u64>) -> Seq<char> {
    age_label(age_if_known(f, now))
}

/// The row shown for `f`.
pub open spec fn row_matches(row: TableRow, f: Finding, now: Option<u64>) -> bool {
    &&& row.size@ == decimal_size_text(f.size_bytes)
    &&& row.label@ == f.label@
    &&& row.age@ == age_shown(f, now)
    &&& row.path@ == f.path@
    &&& row.regenerate_hint@ == f.regenerate_hint@
}

/// The rows of the table, one per finding in order, with ages measured at the
/// clock reading `now_secs` (unknown everywhere without one).
pub fn table_rows(findings: &Vec<Finding>, now_secs: Option<u64>) -> (rows: Vec<TableRow>)
    ensures
        rows.len() == findings.len(),
        forall|i: int|
            0 <= i < rows.len() ==> row_matches(#[trigger] rows@[i], findings@[i], now_secs),
{
    let mut rows: Vec<TableRow> = Vec::new();
    let mut i: usize = 0;
    while i < findings.len()
        invariant
            i <= findings.len(),
            rows.len() == i,
            forall|k: int|
                0 <= k < i ==> row_matches(#[trigger] rows@[k], findings@[k], now_secs),
        decreases findings.len() - i,
    {
        let f = &findings[i];
        let age = match now_secs {
            Some(n) => f.age_days_at(n),
            None => None,
        };
        rows.push(
            TableRow {
                size: size_text(f.size_bytes),
                label: f.label.clone(),
                age: age_text(age),
                path: f.path.clone(),
                regenerate_hint: f.regenerate_hint.clone(),
            },
        );
        i = i + 1;
    }
    rows
}

/// The line that the picker shows for `f`: size padded to 10 characters,
/// label padded to 22, then the path, separated by single spaces.
pub open spec fn picker_line(f: Finding) -> Seq<char> {
    pad_right(decimal_size_text(f.size_bytes), 10) + seq![' '] + pad_right(f.label@, 22) + seq![
        ' ',
    ] + f.path@
}

/// The picker's lines, one per finding in order.
pub fn picker_items(findings: &Vec<Finding>) -> (items: Vec<String>)
    ensures
        items.len() == findings.len(),
        forall|i: int| 0 <= i < items.len() ==> #[trigger] items@[i]@ == picker_line(findings@[i]),
{
    let mut items: Vec<String> = Vec::new();
    let mut i: usize = 0;
    while i < findings.len()
        invariant
            i <= findings.len(),
            items.len() == i,
            forall|k: int| 0 <= k < i ==> #[trigger] items@[k]@ == picker_line(findings@[k]),
        decreases findings.len() - i,
    {
        let f = &findings[i];
        let mut cs: Vec<char> = Vec::new();
        push_padded(&mut cs, &chars_of(size_text(f.size_bytes).as_str()), 10);
        cs.push(' ');
        push_padded(&mut cs, &chars_of(f.label.as_str()), 22);
        cs.push(' ');
        push_str(&mut cs, f.path.as_str());
        assert(cs@ =~= picker_line(*f));
        items.push(string_from_chars(&cs));
        i = i + 1;
    }
    items
}

/// The findings of one ecosystem added up.
#[derive(Debug)]
pub struct LabelTotal {
    /// The ecosystem.
    pub label: String,
    /// Its total size.
    pub size: u64,
    /// How many of its directories were found.
    pub count: usize,
}

impl Clone for LabelTotal {
    fn clone(&self) -> (r: Self)
        ensures
            r == *self,
    {
        LabelTotal { label: self.label.clone(), size: self.size, count: self.count }
    }
}

/// The total size of the findings labelled `l`.
pub open spec fn label_size(fs: Seq<Finding>, l: Seq<char>) -> int
    decreases fs.len(),
{
    if fs.len() == 0 {
        0
    } else {
        label_size(fs.drop_last(), l) + if fs.last().label@ == l {
            fs.last().size_bytes as int
        } else {
            0
        }
    }
}

/// The number of findings labelled `l`.
pub open spec fn label_count(fs: Seq<Finding>, l: Seq<char>) -> int
    decreases fs.len(),
{
    if fs.len() == 0 {
        0
    } else {
        label_count(fs.drop_last(), l) + if fs.last().label@ == l {
            1int
        } else {
            0int
        }
    }
}

/// Some row is for label `l`.
pub open spec fn lists_label(rows: Seq<LabelTotal>, l: Seq<char>) -> bool {
    exists|i: int| 0 <= i < rows.len() && rows[i].label@ == l
}

/// The rows add up the findings per label: one row per label that occurs,
/// with that label's total size and count, largest total first and, among
/// equal totals, labels in ascending order.
pub open spec fn is_breakdown(rows: Seq<LabelTotal>, fs: Seq<Finding>) -> bool {
    &&& forall|i: int|
        #![trigger rows[i]]
        0 <= i < rows.len() ==> {
            &&& rows[i].size == label_size(fs, rows[i].label@)
            &&& rows[i].count == label_count(fs, rows[i].label@)
            &&& rows[i].count > 0
        }
    &&& forall|i: int, j: int|
        #![trigger rows[i], rows[j]]
        0 <= i < j < rows.len() ==> rows[i].label@ != rows[j].label@
    &&& forall|k: int| 0 <= k < fs.len() ==> #[trigger] lists_label(rows, fs[k].label@)
    &&& forall|i: int, j: int|
        #![trigger rows[i], rows[j]]
        0 <= i < j < rows.len() ==> rows[i].size > rows[j].size || (rows[i].size == rows[j].size
            && lex_lt(rows[i].label@, rows[j].label@))
}

proof fn lemma_label_absent(fs: Seq<Finding>, l: Seq<char>)
    requires
        forall|k: int| 0 <= k < fs.len() ==> #[trigger] fs[k].label@ != l,
    ensures
        label_size(fs, l) == 0,
        label_count(fs, l) == 0,
    decreases fs.len(),
{
    if fs.len() > 0 {
        assert forall|k: int| 0 <= k < fs.drop_last().len() implies #[trigger] fs.drop_last()[k].label@
            != l by {
            assert(fs.drop_last()[k] == fs[k]);
        }
        lemma_label_absent(fs.drop_last(), l);
        assert(fs.last() == fs[fs.len() - 1]);
    }
}

proof fn lemma_label_bounds(fs: Seq<Finding>, l: Seq<char>)
    ensures
        0 <= label_size(fs, l) <= sizes_total(fs),
        0 <= label_count(fs, l) <= fs.len(),
    decreases fs.len(),
{
    if fs.len() > 0 {
        lemma_label_bounds(fs.drop_last(), l);
    }
}

/// The findings grouped by label, labels in ascending order.
#[verifier::spinoff_prover]
#[verifier::rlimit(30)]
fn group_by_label(findings: &Vec<Finding>) -> (groups: Vec<LabelTotal>)
    requires
        sizes_total(findings@) <= u64::MAX,
    ensures
        forall|a: int|
            #![trigger groups@[a]]
            0 <= a < groups.len() ==> {
                &&& groups@[a].size == label_size(findings@, groups@[a].label@)
                &&& groups@[a].count == label_count(findings@, groups@[a].label@)
                &&& groups@[a].count > 0
            },
        forall|a: int, b: int|
            #![trigger groups@[a], groups@[b]]
            0 <= a < b < groups.len() ==> lex_lt(groups@[a].label@, groups@[b].label@),
        forall|k: int| 0 <= k < findings.len() ==> #[trigger] lists_label(groups@, findings@[k].label@),
{
    let mut groups: Vec<LabelTotal> = Vec::new();
    let mut i: usize = 0;
    while i < findings.len()
        invariant
            i <= findings.len(),
            sizes_total(findings@) <= u64::MAX,
            forall|a: int|
                #![trigger groups@[a]]
                0 <= a < groups.len() ==> {
                    &&& groups@[a].size == label_size(
                        findings@.take(i as int),
                        groups@[a].label@,
                    )
                    &&& groups@[a].count == label_count(findings@.take(i as int), groups@[a].label@)
                    &&& groups@[a].count > 0
                },
            forall|a: int, b: int|
                #![trigger groups@[a], groups@[b]]
                0 <= a < b < groups.len() ==> lex_lt(groups@[a].label@, groups@[b].label@),
            forall|k: int| 0 <= k < i ==> #[trigger] lists_label(groups@, findings@[k].label@),
        decreases findings.len() - i,
    {
        let ghost prev = findings@.take(i as int);
        let ghost next = findings@.take(i + 1);
        let f = &findings[i];
        let ghost l = f.label@;
        assert(next.drop_last() =~= prev);
        assert(next.last() == *f);
        proof {
            lemma_sizes_total_prefix(findings@, i + 1);
            lemma_label_bounds(next, l);
            lemma_label_bounds(prev, l);
        }
        let lc = chars_of(f.label.as_str());
        let mut pos: usize = 0;
        while pos < groups.len() && lex_less(&chars_of(groups[pos].label.as_str()), &lc)
            invariant
                lc@ == l,
                pos <= groups.len(),
                forall|a: int| 0 <= a < pos ==> lex_lt(#[trigger] groups@[a].label@, l),
            decreases groups.len() - pos,
        {
            pos = pos + 1;
        }
        let ghost old_groups = groups@;
        let found = pos < groups.len() && same_chars(&chars_of(groups[pos].label.as_str()), &lc);
        if found {
            // every other group has another label
            assert forall|a: int| 0 <= a < old_groups.len() && a != pos implies #[trigger] old_groups[a].label@
                != l by {
                if a < pos {
                    lemma_lex_asymmetric(old_groups[a].label@, old_groups[pos as int].label@);
                } else {
                    lemma_lex_asymmetric(old_groups[pos as int].label@, old_groups[a].label@);
                }
            }
            let g = LabelTotal {
                label: groups[pos].label.clone(),
                size: groups[pos].size + f.size_bytes,
                count: groups[pos].count + 1,
            };
            groups.set(pos, g);
            assert forall|k: int| 0 <= k < i + 1 implies #[trigger] lists_label(
                groups@,
                findings@[k].label@,
            ) by {
                if k < i {
                    assert(lists_label(old_groups, findings@[k].label@));
                    let a = choose|a: int| 0 <= a < old_groups.len() && old_groups[a].label@ == findings@[k].label@;
                    assert(groups@[a].label@ == old_groups[a].label@);
                } else {
                    assert(groups@[pos as int].label@ == l);
                }
            }
        } else {
            // no group has this label yet
            assert forall|a: int| 0 <= a < old_groups.len() implies #[trigger] old_groups[a].label@
                != l by {
                if a < pos {
                    lemma_lex_asymmetric(old_groups[a].label@, l);
                } else {
                    lemma_lex_total(old_groups[pos as int].label@, l);
                    if a > pos {
                        lemma_lex_transitive(l, old_groups[pos as int].label@, old_groups[a].label@);
                        lemma_lex_asymmetric(l, old_groups[a].label@);
                    } else {
                        lemma_lex_asymmetric(l, old_groups[a].label@);
                    }
                }
            }
            assert forall|k: int| 0 <= k < prev.len() implies #[trigger] prev[k].label@ != l by {
                assert(prev[k] == findings@[k]);
                if prev[k].label@ == l {
                    assert(lists_label(old_groups, findings@[k].label@));
                    let a = choose|a: int| 0 <= a < old_groups.len() && old_groups[a].label@ == findings@[k].label@;
                }
            }
            proof {
                lemma_label_absent(prev, l);
            }
            groups.insert(pos, LabelTotal { label: f.label.clone(), size: f.size_bytes, count: 1 });
            assert forall|a: int, b: int|
                #![trigger groups@[a], groups@[b]]
                0 <= a < b < groups.len() implies lex_lt(groups@[a].label@, groups@[b].label@) by {
                let oa = if a < pos { a } else { a - 1 };
                let ob = if b < pos { b } else { b - 1 };
                if a == pos {
                    lemma_lex_total(old_groups[pos as int].label@, l);
                    if ob > pos {
                        lemma_lex_transitive(l, old_groups[pos as int].label@, old_groups[ob].label@);
                    }
                } else if b == pos {
                    assert(lex_lt(old_groups[oa].label@, l));
                } else {
                    assert(groups@[a] == old_groups[oa]);
                    assert(groups@[b] == old_groups[ob]);
                }
            }
            assert forall|k: int| 0 <= k < i + 1 implies #[trigger] lists_label(
                groups@,
                findings@[k].label@,
            ) by {
                if k < i {
                    assert(lists_label(old_groups, findings@[k].label@));
                    let a = choose|a: int| 0 <= a < old_groups.len() && old_groups[a].label@ == findings@[k].label@;
                    if a < pos {
                        assert(groups@[a] == old_groups[a]);
                    } else {
                        assert(groups@[a + 1] == old_groups[a]);
                    }
                } else {
                    assert(groups@[pos as int].label@ == l);
                }
            }
        }
        assert forall|a: int| #![trigger groups@[a]] 0 <= a < groups.len() implies {
            &&& groups@[a].size == label_size(next, groups@[a].label@)
            &&& groups@[a].count == label_count(next, groups@[a].label@)
            &&& groups@[a].count > 0
        } by {
            let x = groups@[a].label@;
            assert(label_size(next, x) == label_size(prev, x) + if x == l {
                f.size_bytes as int
            } else {
                0
            });
            assert(label_count(next, x) == label_count(prev, x) + if x == l {
                1int
            } else {
                0int
            });
            if a != pos {
                let oa = if found || a < pos { a } else { a - 1 };
                assert(groups@[a] == old_groups[oa]);
                assert(x != l);
            } else if found {
                assert(old_groups[pos as int].size == label_size(prev, l));
                assert(old_groups[pos as int].count == label_count(prev, l));
            } else {
                assert(label_size(prev, l) == 0);
            }
        }
        i = i + 1;
        assert(findings@.take(i as int) == next);
    }
    assert(findings@.take(findings.len() as int) =~= findings@);
    groups
}

/// The findings added up per ecosystem: one row per label, largest total
/// first, equal totals in ascending order of label. The grand total must fit
/// in 64 bits (see `total_size`).
pub fn breakdown(findings: &Vec<Finding>) -> (rows: Vec<LabelTotal>)
    requires
        sizes_total(findings@) <= u64::MAX,
    ensures
        is_breakdown(rows@, findings@),
{
    let groups = group_by_label(findings);
    let mut keys: Vec<i128> = Vec::new();
    let mut i: usize = 0;
    while i < groups.len()
        invariant
            i <= groups.len(),
            keys.len() == i,
            forall|j: int| 0 <= j < i ==> keys@[j] == (#[trigger] groups@[j]).size,
        decreases groups.len() - i,
    {
        keys.push(groups[i].size as i128);
        i = i + 1;
    }
    let ghost ks = int_keys(keys@);
    assert forall|j: int| 0 <= j < groups.len() implies ks[j] == (#[trigger] groups@[j]).size by {}
    let p = stable_desc_order(&keys);
    let mut rows: Vec<LabelTotal> = Vec::new();
    let mut k: usize = 0;
    while k < p.len()
        invariant
            is_stable_desc_order(p@, ks),
            ks.len() == groups.len(),
            k <= p.len(),
            rows.len() == k,
            forall|m: int| 0 <= m < k ==> #[trigger] rows@[m] == groups@[p@[m] as int],
        decreases p.len() - k,
    {
        assert(p@[k as int] < groups.len());
        rows.push(groups[p[k]].clone());
        k = k + 1;
    }
    assert forall|i: int, j: int|
        #![trigger rows@[i], rows@[j]]
        0 <= i < j < rows.len() implies {
        &&& rows@[i].label@ != rows@[j].label@
        &&& (rows@[i].size > rows@[j].size || (rows@[i].size == rows@[j].size && lex_lt(
            rows@[i].label@,
            rows@[j].label@,
        )))
    } by {
        let (pi, pj) = (p@[i] as int, p@[j] as int);
        assert(ks[pi] >= ks[pj]);
        assert(pi != pj);
        if pi < pj {
            assert(lex_lt(groups@[pi].label@, groups@[pj].label@));
            lemma_lex_asymmetric(groups@[pi].label@, groups@[pj].label@);
        } else {
            assert(lex_lt(groups@[pj].label@, groups@[pi].label@));
            lemma_lex_asymmetric(groups@[pj].label@, groups@[pi].label@);
        }
    }
    assert forall|f: int| 0 <= f < findings.len() implies #[trigger] lists_label(
        rows@,
        findings@[f].label@,
    ) by {
        assert(lists_label(groups@, findings@[f].label@));
        let g = choose|g: int| 0 <= g < groups.len() && groups@[g].label@ == findings@[f].label@;
        assert(lists(p@, g));
        let a = choose|a: int| 0 <= a < p.len() && p@[a] as int == g;
        assert(rows@[a] == groups@[g]);
    }
    rows
}

/// The sum of the rows' sizes.
pub open spec fn rows_size(rows: Seq<LabelTotal>) -> int
    decreases rows.len(),
{
    if rows.len() == 0 {
        0
    } else {
        rows_size(rows.drop_last()) + rows.last().size
    }
}

/// The sum of the rows' counts.
pub open spec fn rows_count(rows: Seq<LabelTotal>) -> int
    decreases rows.len(),
{
    if rows.len() == 0 {
        0
    } else {
        rows_count(rows.drop_last()) + rows.last().count
    }
}

/// The labels of the rows.
pub open spec fn row_labels(rows: Seq<LabelTotal>) -> Seq<Seq<char>> {
    rows.map_values(|r: LabelTotal| r.label@)
}

/// The sizes of the findings under each of `labels`, added up.
spec fn label_sizes_sum(labels: Seq<Seq<char>>, fs: Seq<Finding>) -> int
    decreases labels.len(),
{
    if labels.len() == 0 {
        0
    } else {
        label_sizes_sum(labels.drop_last(), fs) + label_size(fs, labels.last())
    }
}

/// The counts of the findings under each of `labels`, added up.
spec fn label_counts_sum(labels: Seq<Seq<char>>, fs: Seq<Finding>) -> int
    decreases labels.len(),
{
    if labels.len() == 0 {
        0
    } else {
        label_counts_sum(labels.drop_last(), fs) + label_count(fs, labels.last())
    }
}

spec fn no_repeats(labels: Seq<Seq<char>>) -> bool {
    forall|i: int, j: int| #![trigger labels[i], labels[j]] 0 <= i < j < labels.len() ==> labels[i] != labels[j]
}

proof fn lemma_sums_of_nothing(labels: Seq<Seq<char>>, fs: Seq<Finding>)
    requires
        fs.len() == 0,
    ensures
        label_sizes_sum(labels, fs) == 0,
        label_counts_sum(labels, fs) == 0,
    decreases labels.len(),
{
    if labels.len() > 0 {
        lemma_sums_of_nothing(labels.drop_last(), fs);
    }
}

proof fn lemma_sums_step(labels: Seq<Seq<char>>, fs: Seq<Finding>)
    requires
        fs.len() > 0,
        no_repeats(labels),
    ensures
        label_sizes_sum(labels, fs) == label_sizes_sum(labels, fs.drop_last()) + if labels.contains(
            fs.last().label@,
        ) {
            fs.last().size_bytes as int
        } else {
            0
        },
        label_counts_sum(labels, fs) == label_counts_sum(labels, fs.drop_last()) + if labels.contains(
            fs.last().label@,
        ) {
            1int
        } else {
            0int
        },
    decreases labels.len(),
{
    if labels.len() > 0 {
        let rest = labels.drop_last();
        assert(no_repeats(rest)) by {
            assert forall|i: int, j: int| #![trigger rest[i], rest[j]] 0 <= i < j < rest.len() implies rest[i]
                != rest[j] by {
                assert(rest[i] == labels[i] && rest[j] == labels[j]);
            }
        }
        lemma_sums_step(rest, fs);
        let l = fs.last().label@;
        assert(labels.contains(l) == (rest.contains(l) || labels.last() == l)) by {
            if labels.contains(l) {
                let k = choose|k: int| 0 <= k < labels.len() && labels[k] == l;
                if k < labels.len() - 1 {
                    assert(rest[k] == l);
                }
            }
            if rest.contains(l) {
                let k = choose|k: int| 0 <= k < rest.len() && rest[k] == l;
                assert(labels[k] == l);
            }
        }
        if rest.contains(l) {
            let k = choose|k: int| 0 <= k < rest.len() && rest[k] == l;
            assert(labels[k] == rest[k]);
            assert(labels.last() == labels[labels.len() - 1]);
        }
    }
}

proof fn lemma_sums_cover(labels: Seq<Seq<char>>, fs: Seq<Finding>)
    requires
        no_repeats(labels),
        forall|k: int| 0 <= k < fs.len() ==> labels.contains(#[trigger] fs[k].label@),
    ensures
        label_sizes_sum(labels, fs) == sizes_total(fs),
        label_counts_sum(labels, fs) == fs.len(),
    decreases fs.len(),
{
    if fs.len() == 0 {
        lemma_sums_of_nothing(labels, fs);
    } else {
        let rest = fs.drop_last();
        assert forall|k: int| 0 <= k < rest.len() implies labels.contains(#[trigger] rest[k].label@) by {
            assert(rest[k] == fs[k]);
        }
        lemma_sums_cover(labels, rest);
        lemma_sums_step(labels, fs);
        assert(fs.last() == fs[fs.len() - 1]);
    }
}

proof fn lemma_rows_sums(rows: Seq<LabelTotal>, fs: Seq<Finding>)
    requires
        forall|i: int|
            #![trigger rows[i]]
            0 <= i < rows.len() ==> {
                &&& rows[i].size == label_size(fs, rows[i].label@)
                &&& rows[i].count == label_count(fs, rows[i].label@)
            },
    ensures
        rows_size(rows) == label_sizes_sum(row_labels(rows), fs),
        rows_count(rows) == label_counts_sum(row_labels(rows), fs),
    decreases rows.len(),
{
    if rows.len() > 0 {
        let rest = rows.drop_last();
        assert forall|i: int| #![trigger rest[i]] 0 <= i < rest.len() implies {
            &&& rest[i].size == label_size(fs, rest[i].label@)
            &&& rest[i].count == label_count(fs, rest[i].label@)
        } by {
            assert(rest[i] == rows[i]);
        }
        lemma_rows_sums(rest, fs);
        assert(row_labels(rows).drop_last() =~= row_labels(rest));
        assert(rows.last() == rows[rows.len() - 1]);
    }
}

/// The breakdown accounts for every finding once: its sizes add up to the
/// total size of the findings, and its counts to their number.
pub proof fn lemma_breakdown_adds_up(rows: Seq<LabelTotal>, fs: Seq<Finding>)
    requires
        is_breakdown(rows, fs),
    ensures
        rows_size(rows) == sizes_total(fs),
        rows_count(rows) == fs.len(),
{
    let labels = row_labels(rows);
    assert forall|i: int, j: int| #![trigger labels[i], labels[j]] 0 <= i < j < labels.len() implies labels[i]
        != labels[j] by {
        assert(labels[i] == rows[i].label@ && labels[j] == rows[j].label@);
    }
    assert forall|k: int| 0 <= k < fs.len() implies labels.contains(#[trigger] fs[k].label@) by {
        assert(lists_label(rows, fs[k].label@));
        let i = choose|i: int| 0 <= i < rows.len() && rows[i].label@ == fs[k].label@;
        assert(labels[i] == fs[k].label@);
    }
    lemma_rows_sums(rows, fs);
    lemma_sums_cover(labels, fs);
}

} // verus!
