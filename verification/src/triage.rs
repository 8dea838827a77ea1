//! Choosing, ordering and picking findings before anything is deleted.

use vstd::prelude::*;
use crate::model::{Finding, age_at};
use crate::order::{int_keys, is_stable_desc_order, lists, stable_desc_order};

verus! {

/// Bytes in a megabyte as the size threshold counts it.
pub const BYTES_PER_MB: u64 = 1_048_576;

/// The threshold in bytes for a threshold of `mb` megabytes; `None` when it
/// does not fit in 64 bits.
pub fn min_size_bytes(mb: u64) -> (r: Option<u64>)
    ensures
        r == (if mb * BYTES_PER_MB <= u64::MAX {
            Some((mb * BYTES_PER_MB) as u64)
        } else {
            None
        }),
{
    mb.checked_mul(BYTES_PER_MB)
}

/// Whether `f` is at least `min_bytes` large.
pub open spec fn large_enough(f: Finding, min_bytes: u64) -> bool {
    f.size_bytes >= min_bytes
}

/// The findings of `fs` of at least `min_bytes`, in their order.
pub open spec fn min_size_kept(fs: Seq<Finding>, min_bytes: u64) -> Seq<Finding> {
    fs.filter(|f: Finding| large_enough(f, min_bytes))
}

/// The findings of at least `min_bytes`, in their order.
pub fn retain_min_size(findings: Vec<Finding>, min_bytes: u64) -> (r: Vec<Finding>)
    ensures
        r@ == min_size_kept(findings@, min_bytes),
{
    let ghost keep = |f: Finding| large_enough(f, min_bytes);
    let mut r: Vec<Finding> = Vec::new();
    let mut i: usize = 0;
    while i < findings.len()
        invariant
            i <= findings.len(),
            keep == (|f: Finding| large_enough(f, min_bytes)),
            r@ == findings@.take(i as int).filter(keep),
        decreases findings.len() - i,
    {
        assert(findings@.take(i + 1).drop_last() =~= findings@.take(i as int));
        reveal_with_fuel(Seq::filter, 1);
        if findings[i].size_bytes >= min_bytes {
            r.push(findings[i].clone());
        }
        i = i + 1;
    }
    assert(findings@.take(findings.len() as int) =~= findings@);
    r
}

/// Whether `f` is known, at the clock reading `now`, to be younger than
/// `min_days` whole days.
pub open spec fn is_recent(f: Finding, min_days: u64, now: u64) -> bool {
    match age_at(f, now) {
        Some(d) => d < min_days,
        None => false,
    }
}

/// The findings of `fs` not known, at the clock reading `now`, to be younger
/// than `min_days` days, in their order.
pub open spec fn recent_skipped(fs: Seq<Finding>, min_days: u64, now: u64) -> Seq<Finding> {
    fs.filter(|f: Finding| !is_recent(f, min_days, now))
}

/// The findings that are not known to be younger than `min_days` days at the
/// clock reading `now_secs`, in their order. Without a clock reading no age is
/// known and every finding stays.
pub fn drop_recent(findings: Vec<Finding>, min_days: u64, now_secs: Option<u64>) -> (r: Vec<
    Finding,
>)
    ensures
        match now_secs {
            Some(now) => r@ == recent_skipped(findings@, min_days, now),
            None => r@ == findings@,
        },
{
    let now = match now_secs {
        Some(n) => n,
        None => {
            return findings;
        },
    };
    let ghost keep = |f: Finding| !is_recent(f, min_days, now);
    let mut r: Vec<Finding> = Vec::new();
    let mut i: usize = 0;
    while i < findings.len()
        invariant
            i <= findings.len(),
            keep == (|f: Finding| !is_recent(f, min_days, now)),
            r@ == findings@.take(i as int).filter(keep),
        decreases findings.len() - i,
    {
        assert(findings@.take(i + 1).drop_last() =~= findings@.take(i as int));
        reveal_with_fuel(Seq::filter, 1);
        let recent = match findings[i].age_days_at(now) {
            Some(d) => d < min_days,
            None => false,
        };
        if !recent {
            r.push(findings[i].clone());
        }
        i = i + 1;
    }
    assert(findings@.take(findings.len() as int) =~= findings@);
    r
}

/// How findings are ordered.
#[derive(Debug, Clone, Copy, PartialEq, Eq, Structural)]
pub enum SortBy {
    /// Largest first.
    Size,
    /// Oldest first; findings of unknown age last.
    Age,
}

/// The age of `f` at the clock reading `now`, unknown without a reading.
pub open spec fn age_if_known(f: Finding, now: Option<u64>) -> Option<u64> {
    match now {
        Some(n) => age_at(f, n),
        None => None,
    }
}

/// The key by which findings are ordered, largest key first: the size, or
/// the age in days with an unknown age below every known one.
pub open spec fn sort_key(f: Finding, by: SortBy, now: Option<u64>) -> int {
    match by {
        SortBy::Size => f.size_bytes as int,
        SortBy::Age => match age_if_known(f, now) {
            Some(d) => d as int,
            None => -1,
        },
    }
}

/// The keys of the findings.
pub open spec fn keys_of(fs: Seq<Finding>, by: SortBy, now: Option<u64>) -> Seq<int> {
    fs.map_values(|f: Finding| sort_key(f, by, now))
}

/// `sorted` holds the findings of `orig`, each once, by descending key, with
/// findings of equal key in their input order.
pub open spec fn is_stable_sort(sorted: Seq<Finding>, orig: Seq<Finding>, by: SortBy, now: Option<u64>) -> bool {
    exists|p: Seq<usize>|
        #[trigger] is_stable_desc_order(p, keys_of(orig, by, now)) && sorted == p.map_values(
            |j: usize| orig[j as int],
        )
}

/// The sort key of one finding.
fn key_of(f: &Finding, by: SortBy, now: Option<u64>) -> (k: i128)
    ensures
        k == sort_key(*f, by, now),
{
    match by {
        SortBy::Size => f.size_bytes as i128,
        SortBy::Age => {
            let age = match now {
                Some(n) => f.age_days_at(n),
                None => None,
            };
            match age {
                Some(d) => d as i128,
                None => -1,
            }
        },
    }
}

/// The findings ordered by `by` (ages measured at the clock reading
/// `now_secs`; without one, no age is known): largest first, or oldest first
/// with findings of unknown age last. The sort is stable.
pub fn sort_findings(findings: &Vec<Finding>, by: SortBy, now_secs: Option<u64>) -> (r: Vec<Finding>)
    ensures
        is_stable_sort(r@, findings@, by, now_secs),
        r.len() == findings.len(),
        by == SortBy::Size ==> forall|i: int, j: int|
            #![trigger r@[i], r@[j]]
            0 <= i < j < r.len() ==> r@[i].size_bytes >= r@[j].size_bytes,
{
    let mut keys: Vec<i128> = Vec::new();
    let mut i: usize = 0;
    while i < findings.len()
        invariant
            i <= findings.len(),
            keys.len() == i,
            forall|j: int| 0 <= j < i ==> keys@[j] == sort_key(#[trigger] findings@[j], by, now_secs),
        decreases findings.len() - i,
    {
        keys.push(key_of(&findings[i], by, now_secs));
        i = i + 1;
    }
    assert(int_keys(keys@) =~= keys_of(findings@, by, now_secs));
    let p = stable_desc_order(&keys);
    let mut r: Vec<Finding> = Vec::new();
    let mut k: usize = 0;
    while k < p.len()
        invariant
            is_stable_desc_order(p@, keys_of(findings@, by, now_secs)),
            p.len() == findings.len(),
            k <= p.len(),
            r@ == p@.take(k as int).map_values(|j: usize| findings@[j as int]),
        decreases p.len() - k,
    {
        assert(p@[k as int] < findings.len());
        r.push(findings[p[k]].clone());
        assert(p@.take(k + 1).map_values(|j: usize| findings@[j as int]) =~= p@.take(
            k as int,
        ).map_values(|j: usize| findings@[j as int]).push(findings@[p@[k as int] as int]));
        k = k + 1;
    }
    assert(p@.take(p.len() as int) =~= p@);
    proof {
        lemma_sorted_is_permutation(r@, findings@, by, now_secs);
        if by == SortBy::Size {
            lemma_size_sort_largest_first(r@, findings@, now_secs);
        }
    }
    r
}

/// The findings at the given positions, in the order of the positions.
pub fn select_by_indices(findings: &Vec<Finding>, indices: &Vec<usize>) -> (r: Vec<Finding>)
    requires
        forall|k: int| 0 <= k < indices.len() ==> #[trigger] indices@[k] < findings.len(),
    ensures
        r@ == indices@.map_values(|j: usize| findings@[j as int]),
{
    let mut r: Vec<Finding> = Vec::new();
    let mut k: usize = 0;
    while k < indices.len()
        invariant
            forall|m: int| 0 <= m < indices.len() ==> #[trigger] indices@[m] < findings.len(),
            k <= indices.len(),
            r@ == indices@.take(k as int).map_values(|j: usize| findings@[j as int]),
        decreases indices.len() - k,
    {
        r.push(findings[indices[k]].clone());
        assert(indices@.take(k + 1).map_values(|j: usize| findings@[j as int]) =~= indices@.take(
            k as int,
        ).map_values(|j: usize| findings@[j as int]).push(findings@[indices@[k as int] as int]));
        k = k + 1;
    }
    assert(indices@.take(indices.len() as int) =~= indices@);
    r
}

/// Bytes freed by the removals that succeeded, each outcome given as (size,
/// whether the removal succeeded).
pub open spec fn freed_total(outcomes: Seq<(u64, bool)>) -> int
    decreases outcomes.len(),
{
    if outcomes.len() == 0 {
        0
    } else {
        freed_total(outcomes.drop_last()) + if outcomes.last().1 {
            outcomes.last().0 as int
        } else {
            0
        }
    }
}

/// The number of removals that failed.
pub open spec fn failure_count(outcomes: Seq<(u64, bool)>) -> int
    decreases outcomes.len(),
{
    if outcomes.len() == 0 {
        0
    } else {
        failure_count(outcomes.drop_last()) + if outcomes.last().1 {
            0int
        } else {
            1int
        }
    }
}

/// Freed bytes of a prefix are at most those of the whole.
proof fn lemma_freed_prefix(outcomes: Seq<(u64, bool)>, i: int)
    requires
        0 <= i <= outcomes.len(),
    ensures
        freed_total(outcomes.take(i)) <= freed_total(outcomes),
    decreases outcomes.len() - i,
{
    if i < outcomes.len() {
        lemma_freed_prefix(outcomes, i + 1);
        assert(outcomes.take(i + 1).drop_last() =~= outcomes.take(i));
    } else {
        assert(outcomes.take(i) =~= outcomes);
    }
}

/// There are no more failures than outcomes.
proof fn lemma_failures_bounded(outcomes: Seq<(u64, bool)>)
    ensures
        0 <= failure_count(outcomes) <= outcomes.len(),
    decreases outcomes.len(),
{
    if outcomes.len() > 0 {
        lemma_failures_bounded(outcomes.drop_last());
    }
}

/// The summary of a cleanup: bytes freed and the number of directories that
/// could not be removed; `None` when the freed total does not fit in 64 bits.
pub fn summarize_cleanup(outcomes: &Vec<(u64, bool)>) -> (r: Option<(u64, usize)>)
    ensures
        r is None <==> freed_total(outcomes@) > u64::MAX,
        r matches Some(s) ==> s.0 == freed_total(outcomes@) && s.1 == failure_count(outcomes@),
{
    let mut freed: u64 = 0;
    let mut failures: usize = 0;
    let mut i: usize = 0;
    while i < outcomes.len()
        invariant
            i <= outcomes.len(),
            freed == freed_total(outcomes@.take(i as int)),
            failures == failure_count(outcomes@.take(i as int)),
        decreases outcomes.len() - i,
    {
        let (size, removed) = outcomes[i];
        assert(outcomes@.take(i + 1).drop_last() =~= outcomes@.take(i as int));
        proof {
            lemma_failures_bounded(outcomes@.take(i as int));
        }
        if removed {
            match freed.checked_add(size) {
                Some(f) => {
                    freed = f;
                },
                None => {
                    proof {
                        lemma_freed_prefix(outcomes@, i + 1);
                    }
                    return None;
                },
            }
        } else {
            failures = failures + 1;
        }
        i = i + 1;
    }
    assert(outcomes@.take(outcomes.len() as int) =~= outcomes@);
    Some((freed, failures))
}

/// Hiding small findings keeps exactly the large ones: what remains is at
/// least `min_bytes` large, and every finding that large remains.
pub proof fn lemma_min_size_keeps_exactly_the_large(fs: Seq<Finding>, min_bytes: u64)
    ensures
        forall|i: int|
            0 <= i < min_size_kept(fs, min_bytes).len() ==> (#[trigger] min_size_kept(
                fs,
                min_bytes,
            )[i]).size_bytes >= min_bytes,
        forall|i: int|
            0 <= i < fs.len() ==> (min_size_kept(fs, min_bytes).contains(#[trigger] fs[i])
                <==> fs[i].size_bytes >= min_bytes),
{
    broadcast use vstd::seq_lib::group_filter_ensures;
    let keep = |f: Finding| large_enough(f, min_bytes);
    assert forall|i: int| 0 <= i < fs.len() implies (fs.filter(keep).contains(#[trigger] fs[i])
        <==> fs[i].size_bytes >= min_bytes) by {
        if fs.filter(keep).contains(fs[i]) {
            let k = choose|k: int| 0 <= k < fs.filter(keep).len() && fs.filter(keep)[k] == fs[i];
            assert(keep(fs.filter(keep)[k]));
        }
    }
}

/// Skipping recent findings keeps exactly those not known to be recent: no
/// finding younger than `min_days` days remains, and every other one does.
pub proof fn lemma_skip_recent_keeps_exactly_the_old(fs: Seq<Finding>, min_days: u64, now: u64)
    ensures
        forall|i: int|
            0 <= i < recent_skipped(fs, min_days, now).len() ==> !is_recent(
                #[trigger] recent_skipped(fs, min_days, now)[i],
                min_days,
                now,
            ),
        forall|i: int|
            0 <= i < fs.len() ==> (recent_skipped(fs, min_days, now).contains(#[trigger] fs[i])
                <==> !is_recent(fs[i], min_days, now)),
{
    broadcast use vstd::seq_lib::group_filter_ensures;
    let keep = |f: Finding| !is_recent(f, min_days, now);
    assert forall|i: int| 0 <= i < fs.len() implies (fs.filter(keep).contains(#[trigger] fs[i])
        <==> !is_recent(fs[i], min_days, now)) by {
        if fs.filter(keep).contains(fs[i]) {
            let k = choose|k: int| 0 <= k < fs.filter(keep).len() && fs.filter(keep)[k] == fs[i];
            assert(keep(fs.filter(keep)[k]));
        }
    }
}

/// A sort keeps the findings: it has as many as it was given, each one of
/// them, each position of the input used once.
pub proof fn lemma_sorted_is_permutation(sorted: Seq<Finding>, orig: Seq<Finding>, by: SortBy, now: Option<u64>)
    requires
        is_stable_sort(sorted, orig, by, now),
    ensures
        sorted.len() == orig.len(),
        forall|i: int| 0 <= i < sorted.len() ==> orig.contains(#[trigger] sorted[i]),
        forall|k: int| 0 <= k < orig.len() ==> sorted.contains(#[trigger] orig[k]),
{
    let p = choose|p: Seq<usize>|
        #[trigger] is_stable_desc_order(p, keys_of(orig, by, now)) && sorted == p.map_values(
            |j: usize| orig[j as int],
        );
    assert forall|i: int| 0 <= i < sorted.len() implies orig.contains(#[trigger] sorted[i]) by {
        assert(sorted[i] == orig[p[i] as int]);
    }
    assert forall|k: int| 0 <= k < orig.len() implies sorted.contains(#[trigger] orig[k]) by {
        assert(lists(p, k));
        let a = choose|a: int| 0 <= a < p.len() && p[a] as int == k;
        assert(sorted[a] == orig[k]);
    }
}

/// Sorting by size lists the findings largest first: sizes never grow along
/// the result, and findings of equal size keep their input order.
pub proof fn lemma_size_sort_largest_first(sorted: Seq<Finding>, orig: Seq<Finding>, now: Option<u64>)
    requires
        is_stable_sort(sorted, orig, SortBy::Size, now),
    ensures
        forall|i: int, j: int|
            #![trigger sorted[i], sorted[j]]
            0 <= i < j < sorted.len() ==> sorted[i].size_bytes >= sorted[j].size_bytes,
{
    let ks = keys_of(orig, SortBy::Size, now);
    let p = choose|p: Seq<usize>|
        #[trigger] is_stable_desc_order(p, ks) && sorted == p.map_values(|j: usize| orig[j as int]);
    assert forall|i: int, j: int|
        #![trigger sorted[i], sorted[j]]
        0 <= i < j < sorted.len() implies sorted[i].size_bytes >= sorted[j].size_bytes by {
        assert(sorted[i] == orig[p[i] as int]);
        assert(sorted[j] == orig[p[j] as int]);
        assert(ks[p[i] as int] >= ks[p[j] as int]);
        assert(ks[p[i] as int] == orig[p[i] as int].size_bytes);
        assert(ks[p[j] as int] == orig[p[j] as int].size_bytes);
    }
}

/// Sorting by age at a clock reading lists the findings oldest first: ages
/// never grow along the result, and every finding of unknown age comes after
/// every finding of known age.
pub proof fn lemma_age_sort_oldest_first(sorted: Seq<Finding>, orig: Seq<Finding>, now: u64)
    requires
        is_stable_sort(sorted, orig, SortBy::Age, Some(now)),
    ensures
        forall|i: int, j: int|
            #![trigger sorted[i], sorted[j]]
            0 <= i < j < sorted.len() ==> match (
                sorted[i].last_modified_secs,
                sorted[j].last_modified_secs,
            ) {
                (Some(mi), Some(mj)) => (if now >= mi { now - mi } else { 0 }) / 86_400 >= (if now >= mj { now - mj } else { 0 }) / 86_400,
                (None, Some(_)) => false,
                _ => true,
            },
{
    let ks = keys_of(orig, SortBy::Age, Some(now));
    let p = choose|p: Seq<usize>|
        #[trigger] is_stable_desc_order(p, ks) && sorted == p.map_values(|j: usize| orig[j as int]);
    assert forall|i: int, j: int|
        #![trigger sorted[i], sorted[j]]
        0 <= i < j < sorted.len() implies match (
            sorted[i].last_modified_secs,
            sorted[j].last_modified_secs,
        ) {
            (Some(mi), Some(mj)) => (if now >= mi { now - mi } else { 0 }) / 86_400 >= (if now >= mj { now - mj } else { 0 }) / 86_400,
            (None, Some(_)) => false,
            _ => true,
        } by {
        assert(sorted[i] == orig[p[i] as int]);
        assert(sorted[j] == orig[p[j] as int]);
        assert(ks[p[i] as int] >= ks[p[j] as int]);
    }
}

} // verus!
