//! A reclaimable directory that the scanner found, with its size and age.

use vstd::prelude::*;

verus! {

/// Seconds in a day.
pub const SECS_PER_DAY: u64 = 86_400;

/// A directory found to be a regenerable artifact, measured.
#[derive(Debug)]
pub struct Finding {
    /// Where the directory is.
    pub path: String,
    /// The ecosystem it belongs to ("Node.js").
    pub label: String,
    /// Total size of the regular files under it.
    pub size_bytes: u64,
    /// Seconds since epoch, for JSON output / sorting; None if unavailable.
    pub last_modified_secs: Option<u64>,
    /// How to regenerate this artifact if it turns out you needed it.
    pub regenerate_hint: String,
}

impl Clone for Finding {
    fn clone(&self) -> (res: Self)
        ensures
            res == *self,
    {
        Finding {
            path: self.path.clone(),
            label: self.label.clone(),
            size_bytes: self.size_bytes,
            last_modified_secs: self.last_modified_secs,
            regenerate_hint: self.regenerate_hint.clone(),
        }
    }
}

/// Whole days from `modified` to `now`; zero when `modified` lies in the future.
pub open spec fn days_between(modified: u64, now: u64) -> u64 {
    if now >= modified {
        ((now - modified) / (SECS_PER_DAY as int)) as u64
    } else {
        0
    }
}

/// The age in whole days of `f` at the clock reading `now`, if its
/// modification time is known.
pub open spec fn age_at(f: Finding, now: u64) -> Option<u64> {
    match f.last_modified_secs {
        Some(m) => Some(days_between(m, now)),
        None => None,
    }
}

/// `std::time::SystemTime` as an opaque value.
#[verifier::external_type_specification]
#[verifier::external_body]
pub struct ExSystemTime(std::time::SystemTime);

/// `SystemTime::now`: the current reading of the system clock. Nothing is
/// claimed of the reading.
#[verifier::external_body]
fn system_now() -> std::time::SystemTime {
    std::time::SystemTime::now()
}

/// `SystemTime::duration_since(UNIX_EPOCH)`: how long after the epoch `t`
/// lies, or `None` when `t` lies before it. Nothing is claimed of the length.
#[verifier::external_body]
fn since_epoch(t: &std::time::SystemTime) -> Option<std::time::Duration> {
    t.duration_since(std::time::UNIX_EPOCH).ok()
}

/// `Duration::as_secs`: the whole seconds of `d`. Nothing is claimed of them,
/// since the duration is opaque here.
#[verifier::external_body]
fn whole_secs(d: &std::time::Duration) -> u64 {
    d.as_secs()
}

/// The clock's reading in whole seconds since the epoch; `None` when the clock
/// stands before the epoch.
pub fn now_unix_secs() -> Option<u64> {
    let t = system_now();
    match since_epoch(&t) {
        Some(d) => Some(whole_secs(&d)),
        None => None,
    }
}

impl Finding {
    /// The age in whole days at the clock reading `now_secs` (seconds since
    /// the epoch); a modification time in the future counts as age zero.
    pub fn age_days_at(&self, now_secs: u64) -> (r: Option<u64>)
        ensures
            r == age_at(*self, now_secs),
    {
        match self.last_modified_secs {
            Some(m) => Some(now_secs.saturating_sub(m) / SECS_PER_DAY),
            None => None,
        }
    }

    /// The age in whole days, measured against the system clock; `None` when
    /// the modification time is unknown or the clock cannot be read.
    pub fn age_days(&self) -> (r: Option<u64>)
        ensures
            self.last_modified_secs is None ==> r is None,
            r is Some ==> exists|now: u64| r == age_at(*self, now),
    {
        match now_unix_secs() {
            Some(now) => self.age_days_at(now),
            None => None,
        }
    }
}

/// The age is the number of whole days that have passed since the
/// modification: `d` days means at least `d` and fewer than `d + 1` days of
/// seconds; a modification at or after the clock reading is zero days old, and
/// without a modification time there is no age.
pub proof fn lemma_age_is_whole_days(f: Finding, now: u64)
    ensures
        f.last_modified_secs is None <==> age_at(f, now) is None,
        age_at(f, now) matches Some(d) ==> {
            let m = f.last_modified_secs->0;
            &&& now >= m ==> d * 86_400 <= now - m < (d + 1) * 86_400
            &&& now <= m ==> d == 0
        },
{
    if let Some(m) = f.last_modified_secs {
        let d = days_between(m, now);
        if now >= m {
            assert(d * 86_400 <= now - m < (d + 1) * 86_400) by (nonlinear_arith)
                requires
                    d == (now - m) / 86_400,
                    now >= m,
            ;
        }
    }
}

} // verus!
