use vstd::prelude::*;
use vstd::string::*;

use crate::utils::clock::{duration_debug_text, format_duration};
use crate::utils::decimal::{decimal_text, push_decimal};

verus! {

/// How one randomised test ended.
#[derive(Debug, Clone, PartialEq, Eq)]
pub enum FuzzTestResult {
    Passed,
    /// The test failed, with this text.
    Failed(String),
    Crashed,
    Timeout,
}

/// How the randomised tests ended, in all. Times are in nanoseconds.
#[derive(Debug, Clone, PartialEq, Eq)]
pub struct FuzzTestResults {
    pub total_tests: usize,
    pub passed_tests: usize,
    pub failed_tests: usize,
    pub crashes: usize,
    pub timeouts: usize,
    /// Each failure text that was met, with how often; each text once, in
    /// the order in which they were first met.
    pub unique_failures: Vec<(String, usize)>,
    pub execution_times: Vec<u64>,
}

/// How often the failure text `error` is counted among `entries`.
pub open spec fn failure_count(entries: Seq<(String, usize)>, error: Seq<char>) -> nat
    decreases entries.len(),
{
    if entries.len() == 0 {
        0
    } else {
        failure_count(entries.drop_last(), error) + if entries.last().0@ == error {
            entries.last().1 as nat
        } else {
            0nat
        }
    }
}

/// The failure texts of `entries`, in order.
pub open spec fn texts_of(entries: Seq<(String, usize)>) -> Seq<Seq<char>> {
    Seq::new(entries.len(), |i: int| entries[i].0@)
}

/// Whether every failure text stands once among `entries`.
pub open spec fn texts_distinct(entries: Seq<(String, usize)>) -> bool {
    forall|i: int, j: int|
        0 <= i < j < entries.len() ==> (#[trigger] entries[i]).0@ != (#[trigger] entries[j]).0@
}

/// The sum of the times.
pub open spec fn total_time(times: Seq<u64>) -> nat
    decreases times.len(),
{
    if times.len() == 0 {
        0
    } else {
        total_time(times.drop_last()) + times.last() as nat
    }
}

/// The mean of the times, rounded down: nought where there are none.
pub open spec fn mean_time(times: Seq<u64>) -> nat {
    if times.len() == 0 {
        0
    } else {
        total_time(times) / times.len()
    }
}

/// The share `part / whole` in tenths of a percent, rounded to the nearest
/// tenth, halves upwards; nought where `whole` is nought.
pub open spec fn percent_tenths(part: nat, whole: nat) -> nat {
    if whole == 0 {
        0
    } else {
        (part * 2_000 + whole) / (2 * whole)
    }
}

/// The lines of the report that tell the failure texts and their counts.
pub open spec fn failure_lines(entries: Seq<(String, usize)>) -> Seq<char>
    decreases entries.len(),
{
    if entries.len() == 0 {
        Seq::empty()
    } else {
        failure_lines(entries.drop_last()) + entries.last().0@ + ": "@ + decimal_text(
            entries.last().1 as nat,
        ) + " 次\n"@
    }
}

impl FuzzTestResults {
    /// Whether the counts hang together.
    pub open spec fn wf(&self) -> bool {
        &&& texts_distinct(self.unique_failures@)
        &&& self.passed_tests + self.failed_tests + self.crashes + self.timeouts
            == self.total_tests
    }

    /// Whether one more test can be counted.
    pub open spec fn has_room(&self) -> bool {
        &&& self.total_tests < usize::MAX
        &&& self.passed_tests < usize::MAX
        &&& self.failed_tests < usize::MAX
        &&& self.crashes < usize::MAX
        &&& self.timeouts < usize::MAX
        &&& forall|i: int|
            0 <= i < self.unique_failures@.len() ==> (#[trigger] self.unique_failures@[i]).1
                < usize::MAX
    }

    /// Results of no test.
    pub fn new() -> (results: FuzzTestResults)
        ensures
            results.wf(),
            results.has_room(),
            results.total_tests == 0,
            results.passed_tests == 0,
            results.failed_tests == 0,
            results.crashes == 0,
            results.timeouts == 0,
            results.unique_failures@.len() == 0,
            results.execution_times@.len() == 0,
    {
        FuzzTestResults {
            total_tests: 0,
            passed_tests: 0,
            failed_tests: 0,
            crashes: 0,
            timeouts: 0,
            unique_failures: Vec::new(),
            execution_times: Vec::new(),
        }
    }

    /// Counts one test that took `execution_time` nanoseconds: in the total,
    /// under how it ended and, for a failure, under its text.
    pub fn add_result(&mut self, result: FuzzTestResult, execution_time: u64)
        requires
            old(self).wf(),
            old(self).has_room(),
        ensures
            final(self).wf(),
            final(self).total_tests == old(self).total_tests + 1,
            final(self).execution_times@ == old(self).execution_times@.push(execution_time),
            final(self).passed_tests == old(self).passed_tests + if result is Passed {
                1int
            } else {
                0int
            },
            final(self).failed_tests == old(self).failed_tests + if result is Failed {
                1int
            } else {
                0int
            },
            final(self).crashes == old(self).crashes + if result is Crashed {
                1int
            } else {
                0int
            },
            final(self).timeouts == old(self).timeouts + if result is Timeout {
                1int
            } else {
                0int
            },
            !(result is Failed) ==> final(self).unique_failures == old(self).unique_failures,
            result matches FuzzTestResult::Failed(error) ==> {
                &&& texts_of(final(self).unique_failures@) == if texts_of(
                    old(self).unique_failures@,
                ).contains(error@) {
                    texts_of(old(self).unique_failures@)
                } else {
                    texts_of(old(self).unique_failures@).push(error@)
                }
                &&& failure_count(final(self).unique_failures@, error@) == failure_count(
                    old(self).unique_failures@,
                    error@,
                ) + 1
                &&& forall|other: Seq<char>|
                    other != error@ ==> failure_count(final(self).unique_failures@, other)
                        == failure_count(old(self).unique_failures@, other)
            },
    {
        self.total_tests += 1;
        self.execution_times.push(execution_time);
        match result {
            FuzzTestResult::Passed => self.passed_tests += 1,
            FuzzTestResult::Failed(error) => {
                self.failed_tests += 1;
                self.count_failure(error);
            },
            FuzzTestResult::Crashed => self.crashes += 1,
            FuzzTestResult::Timeout => self.timeouts += 1,
        }
    }

    fn count_failure(&mut self, error: String)
        requires
            texts_distinct(old(self).unique_failures@),
            forall|i: int|
                0 <= i < old(self).unique_failures@.len() ==> (#[trigger] old(
                    self,
                ).unique_failures@[i]).1 < usize::MAX,
        ensures
            texts_distinct(final(self).unique_failures@),
            final(self).total_tests == old(self).total_tests,
            final(self).passed_tests == old(self).passed_tests,
            final(self).failed_tests == old(self).failed_tests,
            final(self).crashes == old(self).crashes,
            final(self).timeouts == old(self).timeouts,
            final(self).execution_times == old(self).execution_times,
            texts_of(final(self).unique_failures@) == if texts_of(
                old(self).unique_failures@,
            ).contains(error@) {
                texts_of(old(self).unique_failures@)
            } else {
                texts_of(old(self).unique_failures@).push(error@)
            },
            failure_count(final(self).unique_failures@, error@) == failure_count(
                old(self).unique_failures@,
                error@,
            ) + 1,
            forall|other: Seq<char>|
                other != error@ ==> failure_count(final(self).unique_failures@, other)
                    == failure_count(old(self).unique_failures@, other),
    {
        let mut i: usize = 0;
        while i < self.unique_failures.len()
            invariant
                i <= self.unique_failures@.len(),
                *self == *old(self),
                texts_distinct(self.unique_failures@),
                forall|k: int|
                    0 <= k < self.unique_failures@.len() ==> (
                    #[trigger] self.unique_failures@[k]).1 < usize::MAX,
                forall|k: int| 0 <= k < i ==> (#[trigger] self.unique_failures@[k]).0@ != error@,
            decreases self.unique_failures@.len() - i,
        {
            if self.unique_failures[i].0 == error {
                let ghost before = self.unique_failures@;
                let count = self.unique_failures[i].1;
                self.unique_failures.set(i, (error, count + 1));
                proof {
                    let after = self.unique_failures@;
                    assert(texts_of(before)[i as int] == error@);
                    assert(texts_of(after) =~= texts_of(before));
                    lemma_count_after_bump(before, after, i as int, error@);
                    assert forall|other: Seq<char>| other != error@ implies failure_count(
                        after,
                        other,
                    ) == failure_count(before, other) by {
                        lemma_count_of_other(before, after, i as int, other);
                    }
                }
                return ;
            }
            i = i + 1;
        }
        let ghost before = self.unique_failures@;
        proof {
            lemma_count_of_absent(before, error@);
        }
        self.unique_failures.push((error, 1));
        assert(self.unique_failures@.drop_last() =~= before);
        assert(texts_of(self.unique_failures@) =~= texts_of(before).push(error@));
        assert(!texts_of(before).contains(error@)) by {
            if texts_of(before).contains(error@) {
                let k = choose|k: int| 0 <= k < texts_of(before).len() && texts_of(before)[k] == error@;
                assert(before[k].0@ == error@);
            }
        }
    }

    /// The share of tests that passed, in tenths of a percent.
    pub fn success_rate(&self) -> (tenths: u64)
        requires
            self.passed_tests <= self.total_tests,
        ensures
            tenths == percent_tenths(self.passed_tests as nat, self.total_tests as nat),
            tenths <= 1_000,
    {
        if self.total_tests == 0 {
            0
        } else {
            let total: u128 = self.total_tests as u128;
            let q: u128 = (self.passed_tests as u128 * 2_000 + total) / (2 * total);
            assert(q <= 1_000) by (nonlinear_arith)
                requires
                    q == (self.passed_tests * 2_000 + total) / (2 * total),
                    0 <= self.passed_tests <= total,
                    total > 0,
            ;
            q as u64
        }
    }

    /// The mean time that a test took, in nanoseconds, rounded down: nought
    /// where there was none.
    pub fn average_execution_time(&self) -> (mean: u64)
        ensures
            mean == mean_time(self.execution_times@),
    {
        let n = self.execution_times.len();
        if n == 0 {
            return 0;
        }
        let mut total: u128 = 0;
        let mut i: usize = 0;
        while i < n
            invariant
                n == self.execution_times@.len(),
                i <= n,
                total == total_time(self.execution_times@.subrange(0, i as int)),
                total <= i * u64::MAX,
            decreases n - i,
        {
            proof {
                assert(self.execution_times@.subrange(0, i + 1).drop_last()
                    =~= self.execution_times@.subrange(0, i as int));
                assert(i * u64::MAX + u64::MAX == (i + 1) * u64::MAX) by (nonlinear_arith);
                assert((i + 1) * u64::MAX <= usize::MAX * u64::MAX) by (nonlinear_arith)
                    requires
                        i + 1 <= usize::MAX,
                ;
            }
            total = total + self.execution_times[i] as u128;
            i = i + 1;
        }
        proof {
            assert(self.execution_times@.subrange(0, n as int) =~= self.execution_times@);
            assert(total / (n as u128) <= u64::MAX) by (nonlinear_arith)
                requires
                    total <= n * u64::MAX,
                    n > 0,
            ;
        }
        (total / (n as u128)) as u64
    }

    /// The report for results whose mean time is `mean` nanoseconds.
    pub open spec fn report_text(&self, mean: u64) -> Seq<char> {
        let tenths = percent_tenths(self.passed_tests as nat, self.total_tests as nat);
        let head = "=== 模糊测试报告 ===\n总测试数: "@ + decimal_text(self.total_tests as nat)
            + "\n通过: "@ + decimal_text(self.passed_tests as nat) + " ("@ + decimal_text(
            tenths / 10,
        ) + "."@ + decimal_text(tenths % 10) + "%)\n失败: "@ + decimal_text(
            self.failed_tests as nat,
        ) + "\n崩溃: "@ + decimal_text(self.crashes as nat) + "\n超时: "@ + decimal_text(
            self.timeouts as nat,
        ) + "\n平均执行时间: "@ + duration_debug_text(mean) + "\n"@;
        if self.unique_failures@.len() == 0 {
            head
        } else {
            head + "\n=== 失败模式统计 ===\n"@ + failure_lines(self.unique_failures@)
        }
    }

    /// The report: the counts, the share that passed, the mean time, and the
    /// failure texts with their counts, in the order in which they were
    /// first met.
    pub fn generate_report(&self) -> (report: String)
        requires
            self.wf(),
        ensures
            report@ == self.report_text(mean_time(self.execution_times@) as u64),
    {
        let mean = self.average_execution_time();
        let tenths = self.success_rate();
        proof {
            reveal_strlit(".");
        }
        let mut report = String::from_str("=== 模糊测试报告 ===\n总测试数: ");
        push_decimal(&mut report, self.total_tests as u64);
        report.append("\n通过: ");
        push_decimal(&mut report, self.passed_tests as u64);
        report.append(" (");
        push_decimal(&mut report, tenths / 10);
        report.append(".");
        push_decimal(&mut report, tenths % 10);
        report.append("%)\n失败: ");
        push_decimal(&mut report, self.failed_tests as u64);
        report.append("\n崩溃: ");
        push_decimal(&mut report, self.crashes as u64);
        report.append("\n超时: ");
        push_decimal(&mut report, self.timeouts as u64);
        report.append("\n平均执行时间: ");
        report.append(format_duration(mean).as_str());
        report.append("\n");
        let ghost head = report@;
        if self.unique_failures.len() > 0 {
            report.append("\n=== 失败模式统计 ===\n");
            let ghost opened = report@;
            let mut i: usize = 0;
            assert(self.unique_failures@.subrange(0, 0) =~= Seq::<(String, usize)>::empty());
            assert(report@ =~= opened + failure_lines(self.unique_failures@.subrange(0, 0)));
            while i < self.unique_failures.len()
                invariant
                    i <= self.unique_failures@.len(),
                    report@ == opened + failure_lines(
                        self.unique_failures@.subrange(0, i as int),
                    ),
                decreases self.unique_failures@.len() - i,
            {
                let ghost before = report@;
                report.append(self.unique_failures[i].0.as_str());
                report.append(": ");
                push_decimal(&mut report, self.unique_failures[i].1 as u64);
                report.append(" 次\n");
                proof {
                    let upto = self.unique_failures@.subrange(0, i + 1);
                    assert(upto.drop_last() =~= self.unique_failures@.subrange(0, i as int));
                    assert(report@ =~= opened + failure_lines(upto));
                }
                i = i + 1;
            }
            assert(self.unique_failures@.subrange(0, self.unique_failures@.len() as int)
                =~= self.unique_failures@);
        }
        assert(report@ =~= self.report_text(mean));
        report
    }
}

impl Default for FuzzTestResults {
    fn default() -> (results: FuzzTestResults)
        ensures
            results.wf(),
            results.has_room(),
            results.total_tests == 0,
            results.passed_tests == 0,
            results.failed_tests == 0,
            results.crashes == 0,
            results.timeouts == 0,
            results.unique_failures@.len() == 0,
            results.execution_times@.len() == 0,
    {
        FuzzTestResults::new()
    }
}

/// A text that stands nowhere among the entries is counted nought times.
pub proof fn lemma_count_of_absent(entries: Seq<(String, usize)>, error: Seq<char>)
    requires
        forall|k: int| 0 <= k < entries.len() ==> (#[trigger] entries[k]).0@ != error,
    ensures
        failure_count(entries, error) == 0,
    decreases entries.len(),
{
    if entries.len() > 0 {
        let rest = entries.drop_last();
        assert forall|k: int| 0 <= k < rest.len() implies (#[trigger] rest[k]).0@ != error by {
            assert(rest[k] == entries[k]);
        }
        lemma_count_of_absent(rest, error);
    }
}

/// Counting a text once more, at the one place where it stands, raises its
/// count by one.
pub proof fn lemma_count_after_bump(
    before: Seq<(String, usize)>,
    after: Seq<(String, usize)>,
    at: int,
    error: Seq<char>,
)
    requires
        0 <= at < before.len(),
        after.len() == before.len(),
        forall|k: int| 0 <= k < before.len() && k != at ==> after[k] == before[k],
        before[at].0@ == error,
        after[at].0@ == error,
        after[at].1 == before[at].1 + 1,
    ensures
        failure_count(after, error) == failure_count(before, error) + 1,
    decreases before.len(),
{
    let last = before.len() - 1;
    if at == last {
        assert(after.drop_last() =~= before.drop_last());
    } else {
        assert(after.drop_last().len() == before.drop_last().len());
        lemma_count_after_bump(before.drop_last(), after.drop_last(), at, error);
        assert(after.last() == before.last());
    }
}

/// Counting one text once more leaves the counts of the other texts as they
/// were.
pub proof fn lemma_count_of_other(
    before: Seq<(String, usize)>,
    after: Seq<(String, usize)>,
    at: int,
    other: Seq<char>,
)
    requires
        0 <= at < before.len(),
        after.len() == before.len(),
        forall|k: int| 0 <= k < before.len() && k != at ==> after[k] == before[k],
        before[at].0@ == after[at].0@,
        before[at].0@ != other,
    ensures
        failure_count(after, other) == failure_count(before, other),
    decreases before.len(),
{
    let last = before.len() - 1;
    if at == last {
        assert(after.drop_last() =~= before.drop_last());
    } else {
        lemma_count_of_other(before.drop_last(), after.drop_last(), at, other);
        assert(after.last() == before.last());
    }
}

} // verus!
