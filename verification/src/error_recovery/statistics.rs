use vstd::prelude::*;

use crate::error_recovery::category::ErrorCategory;

verus! {

/// How many of the latest failures are kept.
pub const RECENT_LIMIT: usize = 1000;

/// How many of the oldest failures are dropped when the limit is passed.
pub const RECENT_DROP: usize = 100;

/// The failures met and the recoveries tried. Times are in milliseconds on
/// the caller's monotonic clock.
#[derive(Debug, Clone, PartialEq, Eq)]
pub struct ErrorStatistics {
    pub total_errors: usize,
    pub successful_recoveries: usize,
    pub failed_recoveries: usize,
    /// How many failures of each category were met, by the category's index.
    pub category_counts: [usize; 10],
    /// The latest failures with the time of each, oldest first.
    pub recent_errors: Vec<(u64, ErrorCategory)>,
}

/// The entries that are later than `cutoff`, in order.
pub open spec fn later_than(entries: Seq<(u64, ErrorCategory)>, cutoff: int) -> Seq<
    (u64, ErrorCategory),
>
    decreases entries.len(),
{
    if entries.len() == 0 {
        entries
    } else if entries.last().0 > cutoff {
        later_than(entries.drop_last(), cutoff).push(entries.last())
    } else {
        later_than(entries.drop_last(), cutoff)
    }
}

/// How many of the last `n` entries are of `category`.
pub open spec fn trailing_matches(
    entries: Seq<(u64, ErrorCategory)>,
    n: nat,
    category: ErrorCategory,
) -> nat
    decreases entries.len(),
{
    if n == 0 || entries.len() == 0 {
        0
    } else {
        trailing_matches(entries.drop_last(), (n - 1) as nat, category) + if entries.last().1
            == category {
            1nat
        } else {
            0nat
        }
    }
}

/// How many of the oldest of `len` failures are dropped once the limit is
/// passed: a hundred, or as many as leave `keep` of them, where that is
/// fewer.
pub open spec fn dropped_of(len: nat, keep: nat) -> nat {
    if len <= RECENT_LIMIT || len <= keep {
        0
    } else if len - keep < RECENT_DROP {
        (len - keep) as nat
    } else {
        RECENT_DROP as nat
    }
}

/// The latest failures after one more: the new one is appended, and the
/// oldest hundred are dropped once more than a thousand are kept, but so
/// that the latest `keep` stay.
pub open spec fn with_recent(
    entries: Seq<(u64, ErrorCategory)>,
    now: u64,
    category: ErrorCategory,
    keep: nat,
) -> Seq<(u64, ErrorCategory)> {
    let pushed = entries.push((now, category));
    pushed.skip(dropped_of(pushed.len(), keep) as int)
}

/// The share `part / whole` in parts per million, rounded down; nought where
/// `whole` is nought.
pub open spec fn rate_ppm(part: nat, whole: nat) -> nat {
    if whole == 0 {
        0
    } else {
        (part * 1_000_000) / whole
    }
}

fn rate_ppm_exec(part: usize, whole: u128) -> (ppm: u128)
    requires
        whole <= 2 * usize::MAX,
    ensures
        ppm == rate_ppm(part as nat, whole as nat),
{
    if whole == 0 {
        return 0;
    }
    (part as u128 * 1_000_000) / whole
}

impl ErrorStatistics {
    /// The count of failures of `category`.
    pub open spec fn count_of(&self, category: ErrorCategory) -> usize {
        self.category_counts@[category.spec_index() as int]
    }

    /// Statistics of nothing.
    pub fn new() -> (stats: ErrorStatistics)
        ensures
            stats.total_errors == 0,
            stats.successful_recoveries == 0,
            stats.failed_recoveries == 0,
            stats.recent_errors@.len() == 0,
            forall|c: ErrorCategory| stats.count_of(c) == 0,
    {
        ErrorStatistics {
            total_errors: 0,
            successful_recoveries: 0,
            failed_recoveries: 0,
            category_counts: [0, 0, 0, 0, 0, 0, 0, 0, 0, 0],
            recent_errors: Vec::new(),
        }
    }

    /// The count of failures of `category`.
    pub fn category_count(&self, category: ErrorCategory) -> (count: usize)
        ensures
            count == self.count_of(category),
    {
        self.category_counts[category.index()]
    }

    /// Whether one more failure of `category` can be counted.
    pub open spec fn has_room_for(&self, category: ErrorCategory) -> bool {
        self.total_errors < usize::MAX && self.count_of(category) < usize::MAX
    }

    /// Records a failure of `category` met at `now`: it is counted in the
    /// total and under its category, and joins the latest failures.
    pub fn record_error(&mut self, now: u64, category: ErrorCategory)
        requires
            old(self).has_room_for(category),
        ensures
            final(self).total_errors == old(self).total_errors + 1,
            final(self).count_of(category) == old(self).count_of(category) + 1,
            forall|c: ErrorCategory| c != category ==> final(self).count_of(c) == old(self).count_of(c),
            final(self).recent_errors@ == with_recent(old(self).recent_errors@, now, category, 0),
            final(self).successful_recoveries == old(self).successful_recoveries,
            final(self).failed_recoveries == old(self).failed_recoveries,
    {
        self.record_error_keeping(now, category, 0)
    }

    /// Records a failure as `record_error` does, but keeps the latest `keep`
    /// failures whatever the limit: a reader that looks at so many of them
    /// finds them all.
    pub fn record_error_keeping(&mut self, now: u64, category: ErrorCategory, keep: usize)
        requires
            old(self).has_room_for(category),
        ensures
            final(self).total_errors == old(self).total_errors + 1,
            final(self).count_of(category) == old(self).count_of(category) + 1,
            forall|c: ErrorCategory| c != category ==> final(self).count_of(c) == old(self).count_of(c),
            final(self).recent_errors@ == with_recent(
                old(self).recent_errors@,
                now,
                category,
                keep as nat,
            ),
            final(self).successful_recoveries == old(self).successful_recoveries,
            final(self).failed_recoveries == old(self).failed_recoveries,
    {
        self.total_errors += 1;
        let at = category.index();
        let counted = self.category_counts[at] + 1;
        self.category_counts[at] = counted;
        self.recent_errors.push((now, category));
        let ghost pushed = self.recent_errors@;
        let len = self.recent_errors.len();
        let cut: usize = if len <= RECENT_LIMIT || len <= keep {
            0
        } else if len - keep < RECENT_DROP {
            len - keep
        } else {
            RECENT_DROP
        };
        if cut > 0 {
            let mut kept: Vec<(u64, ErrorCategory)> = Vec::new();
            let mut i: usize = cut;
            while i < self.recent_errors.len()
                invariant
                    cut <= i <= self.recent_errors@.len(),
                    self.recent_errors@ == pushed,
                    kept@ == pushed.subrange(cut as int, i as int),
                decreases self.recent_errors@.len() - i,
            {
                kept.push(self.recent_errors[i]);
                i = i + 1;
                assert(kept@ =~= pushed.subrange(cut as int, i as int));
            }
            assert(kept@ =~= pushed.skip(cut as int));
            self.recent_errors = kept;
        } else {
            assert(pushed.skip(0) =~= pushed);
        }
        assert forall|c: ErrorCategory| c != category implies final(self).count_of(c) == old(
            self,
        ).count_of(c) by {
            assert(c.spec_index() != category.spec_index());
        }
    }

    /// Counts a recovery that succeeded.
    pub fn record_successful_recovery(&mut self)
        requires
            old(self).successful_recoveries < usize::MAX,
        ensures
            final(self).successful_recoveries == old(self).successful_recoveries + 1,
            final(self).total_errors == old(self).total_errors,
            final(self).failed_recoveries == old(self).failed_recoveries,
            final(self).category_counts == old(self).category_counts,
            final(self).recent_errors == old(self).recent_errors,
    {
        self.successful_recoveries += 1;
    }

    /// Counts a recovery that failed.
    pub fn record_failed_recovery(&mut self)
        requires
            old(self).failed_recoveries < usize::MAX,
        ensures
            final(self).failed_recoveries == old(self).failed_recoveries + 1,
            final(self).total_errors == old(self).total_errors,
            final(self).successful_recoveries == old(self).successful_recoveries,
            final(self).category_counts == old(self).category_counts,
            final(self).recent_errors == old(self).recent_errors,
    {
        self.failed_recoveries += 1;
    }

    /// The share of failures whose recovery failed, in parts per million:
    /// nought where no failure was met.
    pub fn error_rate(&self) -> (ppm: u128)
        ensures
            ppm == rate_ppm(self.failed_recoveries as nat, self.total_errors as nat),
    {
        rate_ppm_exec(self.failed_recoveries, self.total_errors as u128)
    }

    /// The share of recoveries that succeeded, in parts per million: nought
    /// where none was tried.
    pub fn recovery_success_rate(&self) -> (ppm: u128)
        ensures
            ppm == rate_ppm(
                self.successful_recoveries as nat,
                (self.successful_recoveries + self.failed_recoveries) as nat,
            ),
    {
        rate_ppm_exec(
            self.successful_recoveries,
            self.successful_recoveries as u128 + self.failed_recoveries as u128,
        )
    }

    /// Forgets the latest failures that are `window` milliseconds old or
    /// older at `now`.
    pub fn cleanup_old_errors(&mut self, now: u64, window: u64)
        ensures
            final(self).recent_errors@ == later_than(old(self).recent_errors@, now - window),
            final(self).total_errors == old(self).total_errors,
            final(self).successful_recoveries == old(self).successful_recoveries,
            final(self).failed_recoveries == old(self).failed_recoveries,
            final(self).category_counts == old(self).category_counts,
    {
        let cutoff: i128 = now as i128 - window as i128;
        let mut kept: Vec<(u64, ErrorCategory)> = Vec::new();
        let mut i: usize = 0;
        while i < self.recent_errors.len()
            invariant
                i <= self.recent_errors@.len(),
                self.recent_errors@ == old(self).recent_errors@,
                cutoff == now - window,
                kept@ == later_than(self.recent_errors@.subrange(0, i as int), cutoff as int),
            decreases self.recent_errors@.len() - i,
        {
            let entry = self.recent_errors[i];
            assert(self.recent_errors@.subrange(0, i + 1).drop_last()
                =~= self.recent_errors@.subrange(0, i as int));
            if entry.0 as i128 > cutoff {
                kept.push(entry);
            }
            i = i + 1;
        }
        assert(self.recent_errors@.subrange(0, self.recent_errors@.len() as int)
            =~= self.recent_errors@);
        self.recent_errors = kept;
    }

    /// How many of the latest failures are less than `window` milliseconds
    /// old at `now`.
    pub fn error_count_in_window(&self, now: u64, window: u64) -> (count: usize)
        ensures
            count == later_than(self.recent_errors@, now - window).len(),
    {
        let cutoff: i128 = now as i128 - window as i128;
        let mut count: usize = 0;
        let mut i: usize = 0;
        while i < self.recent_errors.len()
            invariant
                i <= self.recent_errors@.len(),
                cutoff == now - window,
                count == later_than(self.recent_errors@.subrange(0, i as int), cutoff as int).len(),
                count <= i,
            decreases self.recent_errors@.len() - i,
        {
            assert(self.recent_errors@.subrange(0, i + 1).drop_last()
                =~= self.recent_errors@.subrange(0, i as int));
            if self.recent_errors[i].0 as i128 > cutoff {
                count = count + 1;
            }
            i = i + 1;
        }
        assert(self.recent_errors@.subrange(0, self.recent_errors@.len() as int)
            =~= self.recent_errors@);
        count
    }

    /// How many of the last `n` of the latest failures are of `category`.
    pub fn recent_failures_of(&self, n: usize, category: ErrorCategory) -> (count: usize)
        ensures
            count == trailing_matches(self.recent_errors@, n as nat, category),
            count <= n,
    {
        let len = self.recent_errors.len();
        let mut count: usize = 0;
        let mut taken: usize = 0;
        assert(self.recent_errors@.subrange(0, len as int) =~= self.recent_errors@);
        while taken < n && taken < len
            invariant
                len == self.recent_errors@.len(),
                taken <= n,
                taken <= len,
                count <= taken,
                count + trailing_matches(
                    self.recent_errors@.subrange(0, len - taken),
                    (n - taken) as nat,
                    category,
                ) == trailing_matches(self.recent_errors@, n as nat, category),
            decreases len - taken,
        {
            let ghost rest = self.recent_errors@.subrange(0, len - taken);
            assert(rest.drop_last() =~= self.recent_errors@.subrange(0, len - taken - 1));
            if self.recent_errors[len - taken - 1].1 == category {
                count = count + 1;
            }
            taken = taken + 1;
        }
        count
    }
}

impl Default for ErrorStatistics {
    fn default() -> (stats: ErrorStatistics)
        ensures
            stats.total_errors == 0,
            stats.successful_recoveries == 0,
            stats.failed_recoveries == 0,
            stats.recent_errors@.len() == 0,
            forall|c: ErrorCategory| stats.count_of(c) == 0,
    {
        ErrorStatistics::new()
    }
}

/// Where the last `n` failures are all of one category, all `n` of them
/// match it.
pub proof fn lemma_trailing_all_match(
    entries: Seq<(u64, ErrorCategory)>,
    n: nat,
    category: ErrorCategory,
)
    requires
        n <= entries.len(),
        forall|i: int| entries.len() - n <= i < entries.len() ==> (#[trigger] entries[i]).1 == category,
    ensures
        trailing_matches(entries, n, category) == n,
    decreases entries.len(),
{
    if n > 0 {
        let rest = entries.drop_last();
        assert forall|i: int| rest.len() - (n - 1) <= i < rest.len() implies (#[trigger] rest[i]).1
            == category by {
            assert(rest[i] == entries[i]);
        }
        lemma_trailing_all_match(rest, (n - 1) as nat, category);
    }
}

} // verus!
