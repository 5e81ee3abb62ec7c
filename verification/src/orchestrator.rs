//! Judging each fixture run and aggregating the verdicts of a test pass into
//! a report with counts per test folder and per target directory.

use vstd::prelude::*;
use crate::runner::{RunOutcome, outputs_match, outputs_match_spec};
use crate::util::clone_bytes;

verus! {

/// Why a fixture could not be judged against its expected output.
#[derive(Clone, Copy, PartialEq, Eq, Structural, Debug)]
pub enum RunErrorKind {
    /// The target's source did not compile, so nothing was executed.
    CompileFailed,
    /// The binary exceeded the timeout and was terminated.
    TimedOut,
    /// The binary was missing or could not be started.
    LaunchFailed,
}

/// The verdict on one fixture.
pub enum Verdict {
    /// Actual output equals expected output (after trailing newline
    /// normalization).
    Pass,
    /// The outputs differ; both sides are carried for inspection.
    Fail { expected: Vec<u8>, actual: Vec<u8> },
    /// The binary never produced a comparable output.
    RunError { reason: RunErrorKind },
}

/// One discovered test case: its identifier, the test folder it came from,
/// the bytes fed to stdin (possibly empty) and the expected stdout bytes.
pub struct Fixture {
    pub id: String,
    pub folder: String,
    pub input: Vec<u8>,
    pub expected: Vec<u8>,
}

/// The judged result of one fixture under one target directory.
pub struct TestCaseResult {
    pub id: String,
    pub folder: String,
    pub dir: String,
    pub verdict: Verdict,
    pub duration_ms: u64,
}

/// The verdict a run outcome earns against a fixture: a timeout and a launch
/// failure are their own run errors, a completed run passes exactly when its
/// stdout matches the expected output.
pub open spec fn verdict_matches(f: Fixture, o: RunOutcome, v: Verdict) -> bool {
    match o {
        RunOutcome::Completed { exit_code, stdout, stderr } => {
            if outputs_match_spec(stdout@, f.expected@) {
                v == Verdict::Pass
            } else {
                match v {
                    Verdict::Fail { expected, actual } => expected@ == f.expected@
                        && actual@ == stdout@,
                    _ => false,
                }
            }
        },
        RunOutcome::TimedOut => v == (Verdict::RunError { reason: RunErrorKind::TimedOut }),
        RunOutcome::LaunchFailed => v == (Verdict::RunError {
            reason: RunErrorKind::LaunchFailed,
        }),
    }
}

/// One judged entry is labelled after its fixture and directory, carries its
/// run's duration, and its verdict matches the run outcome.
pub open spec fn judged_entry(
    r: TestCaseResult,
    f: Fixture,
    dir: Seq<char>,
    o: RunOutcome,
    ms: u64,
) -> bool {
    &&& r.id@ == f.id@
    &&& r.folder@ == f.folder@
    &&& r.dir@ == dir
    &&& r.duration_ms == ms
    &&& verdict_matches(f, o, r.verdict)
}

/// One entry of a target that did not compile: labelled after its fixture and
/// directory, judged a `CompileFailed` run error, with no run and no duration.
pub open spec fn compile_failed_entry(r: TestCaseResult, f: Fixture, dir: Seq<char>) -> bool {
    &&& r.id@ == f.id@
    &&& r.folder@ == f.folder@
    &&& r.dir@ == dir
    &&& r.verdict == (Verdict::RunError { reason: RunErrorKind::CompileFailed })
    &&& r.duration_ms == 0
}

/// Which of the three verdict classes a count is over.
#[derive(Clone, Copy, PartialEq, Eq, Structural, Debug)]
pub enum VerdictKind {
    Pass,
    Fail,
    Error,
}

/// The verdict belongs to the given class.
pub open spec fn verdict_is(v: Verdict, k: VerdictKind) -> bool {
    match k {
        VerdictKind::Pass => v is Pass,
        VerdictKind::Fail => v is Fail,
        VerdictKind::Error => v is RunError,
    }
}

/// The grouping key of a result: its directory or its test folder.
pub open spec fn key_of(r: TestCaseResult, by_dir: bool) -> Seq<char> {
    if by_dir {
        r.dir@
    } else {
        r.folder@
    }
}

/// How many results under the given key carry a verdict of the given class.
pub open spec fn count_verdicts(
    rs: Seq<TestCaseResult>,
    key: Seq<char>,
    by_dir: bool,
    k: VerdictKind,
) -> int
    decreases rs.len(),
{
    if rs.len() == 0 {
        0
    } else {
        count_verdicts(rs.drop_last(), key, by_dir, k) + if key_of(rs.last(), by_dir) == key
            && verdict_is(rs.last().verdict, k) {
            1int
        } else {
            0int
        }
    }
}

/// Appending one result changes a count by one exactly when that result has
/// the key and the class counted.
proof fn lemma_count_step(
    rs: Seq<TestCaseResult>,
    i: int,
    key: Seq<char>,
    by_dir: bool,
    k: VerdictKind,
)
    requires
        0 <= i < rs.len(),
    ensures
        count_verdicts(rs.take(i + 1), key, by_dir, k) == count_verdicts(rs.take(i), key, by_dir, k)
            + if key_of(rs[i], by_dir) == key && verdict_is(rs[i].verdict, k) {
            1int
        } else {
            0int
        },
{
    assert(rs.take(i + 1).drop_last() =~= rs.take(i));
    assert(rs.take(i + 1).last() == rs[i]);
}

/// A count never exceeds the number of results.
proof fn lemma_count_bound(rs: Seq<TestCaseResult>, key: Seq<char>, by_dir: bool, k: VerdictKind)
    ensures
        0 <= count_verdicts(rs, key, by_dir, k) <= rs.len(),
    decreases rs.len(),
{
    if rs.len() > 0 {
        lemma_count_bound(rs.drop_last(), key, by_dir, k);
    }
}

/// When no result matches both the key and the class, the count is zero.
proof fn lemma_count_zero(rs: Seq<TestCaseResult>, key: Seq<char>, by_dir: bool, k: VerdictKind)
    requires
        forall|j: int|
            0 <= j < rs.len() ==> !(key_of(rs[j], by_dir) == key && verdict_is(rs[j].verdict, k)),
    ensures
        count_verdicts(rs, key, by_dir, k) == 0,
    decreases rs.len(),
{
    if rs.len() > 0 {
        assert(rs.drop_last() =~= rs.take(rs.len() - 1));
        lemma_count_zero(rs.drop_last(), key, by_dir, k);
    }
}

/// When every result is a run error, there are no pass and no fail entries,
/// under any key.
pub proof fn lemma_all_run_errors_count_nothing(
    rs: Seq<TestCaseResult>,
    key: Seq<char>,
    by_dir: bool,
)
    requires
        forall|j: int| 0 <= j < rs.len() ==> rs[j].verdict is RunError,
    ensures
        count_verdicts(rs, key, by_dir, VerdictKind::Pass) == 0,
        count_verdicts(rs, key, by_dir, VerdictKind::Fail) == 0,
{
    lemma_count_zero(rs, key, by_dir, VerdictKind::Pass);
    lemma_count_zero(rs, key, by_dir, VerdictKind::Fail);
}

/// Pass, fail and error totals of one grouping key.
pub struct KeyCount {
    pub key: String,
    pub pass: usize,
    pub fail: usize,
    pub error: usize,
}

/// The counts list is correct for the results: each entry's totals are the
/// counts of its key over all results, keys are unique, and the keys are
/// exactly those that occur in the results.
pub open spec fn counts_correct(
    counts: Seq<KeyCount>,
    rs: Seq<TestCaseResult>,
    by_dir: bool,
) -> bool {
    &&& forall|k: int|
        0 <= k < counts.len() ==> {
            &&& counts[k].pass == count_verdicts(rs, counts[k].key@, by_dir, VerdictKind::Pass)
            &&& counts[k].fail == count_verdicts(rs, counts[k].key@, by_dir, VerdictKind::Fail)
            &&& counts[k].error == count_verdicts(rs, counts[k].key@, by_dir, VerdictKind::Error)
        }
    &&& forall|k: int, l: int| 0 <= k < l < counts.len() ==> counts[k].key@ != counts[l].key@
    &&& forall|j: int| #![trigger key_of(rs[j], by_dir)]
        0 <= j < rs.len() ==> exists|k: int| #![trigger counts[k].key@]
            0 <= k < counts.len() && counts[k].key@ == key_of(rs[j], by_dir)
    &&& forall|k: int| #![trigger counts[k].key@]
        0 <= k < counts.len() ==> exists|j: int| #![trigger key_of(rs[j], by_dir)]
            0 <= j < rs.len() && counts[k].key@ == key_of(rs[j], by_dir)
}

/// The aggregated outcome of one test pass: every judged fixture, and the
/// pass/fail/error totals per test folder and per target directory.
pub struct TestReport {
    pub results: Vec<TestCaseResult>,
    pub folder_counts: Vec<KeyCount>,
    pub directory_counts: Vec<KeyCount>,
}

/// Judges fixture runs and aggregates them into a test report. The process
/// launches themselves happen outside the library; the orchestrator is handed
/// their outcomes.
pub struct TestOrchestrator;

impl TestOrchestrator {
    /// The judged result of one fixture run under one target directory.
    pub fn evaluate_fixture(dir: &String, f: &Fixture, o: RunOutcome, duration_ms: u64) -> (r:
        TestCaseResult)
        ensures
            r.id@ == f.id@,
            r.folder@ == f.folder@,
            r.dir@ == dir@,
            r.duration_ms == duration_ms,
            verdict_matches(*f, o, r.verdict),
    {
        let verdict = match o {
            RunOutcome::Completed { exit_code: _, stdout, stderr: _ } => {
                if outputs_match(&stdout, &f.expected) {
                    Verdict::Pass
                } else {
                    Verdict::Fail { expected: clone_bytes(&f.expected), actual: stdout }
                }
            },
            RunOutcome::TimedOut => Verdict::RunError { reason: RunErrorKind::TimedOut },
            RunOutcome::LaunchFailed => Verdict::RunError { reason: RunErrorKind::LaunchFailed },
        };
        TestCaseResult {
            id: f.id.clone(),
            folder: f.folder.clone(),
            dir: dir.clone(),
            verdict,
            duration_ms,
        }
    }

    /// Every fixture of a target whose source did not compile is judged a
    /// `CompileFailed` run error, and nothing is executed for it.
    pub fn mark_compile_failed(dir: &String, fixtures: &Vec<Fixture>) -> (rs: Vec<TestCaseResult>)
        ensures
            rs@.len() == fixtures@.len(),
            forall|k: int|
                0 <= k < rs@.len() ==> #[trigger] compile_failed_entry(
                    rs@[k],
                    fixtures@[k],
                    dir@,
                ),
    {
        let mut rs: Vec<TestCaseResult> = Vec::new();
        let n = fixtures.len();
        let mut i: usize = 0;
        while i < n
            invariant
                n == fixtures@.len(),
                i <= n,
                rs@.len() == i,
                forall|k: int|
                    0 <= k < i ==> #[trigger] compile_failed_entry(rs@[k], fixtures@[k], dir@),
            decreases n - i,
        {
            let ghost old_rs = rs@;
            rs.push(
                TestCaseResult {
                    id: fixtures[i].id.clone(),
                    folder: fixtures[i].folder.clone(),
                    dir: dir.clone(),
                    verdict: Verdict::RunError { reason: RunErrorKind::CompileFailed },
                    duration_ms: 0,
                },
            );
            proof {
                assert forall|k: int| 0 <= k < i as int + 1 implies #[trigger] compile_failed_entry(
                    rs@[k],
                    fixtures@[k],
                    dir@,
                ) by {
                    if k == i as int {
                        assert(rs@[k] == rs@.last());
                    } else {
                        assert(rs@[k] == old_rs[k]);
                        assert(compile_failed_entry(old_rs[k], fixtures@[k], dir@));
                    }
                }
            }
            i += 1;
        }
        rs
    }

    /// Each fixture of a successfully compiled target, judged against the
    /// outcome and wall-clock duration of its run, in order.
    pub fn evaluate_outcomes(
        dir: &String,
        fixtures: &Vec<Fixture>,
        outcomes: Vec<RunOutcome>,
        durations: &Vec<u64>,
    ) -> (rs: Vec<TestCaseResult>)
        requires
            outcomes@.len() == fixtures@.len(),
            durations@.len() == fixtures@.len(),
        ensures
            rs@.len() == fixtures@.len(),
            forall|k: int|
                0 <= k < rs@.len() ==> #[trigger] judged_entry(
                    rs@[k],
                    fixtures@[k],
                    dir@,
                    outcomes@[k],
                    durations@[k],
                ),
    {
        let mut rs: Vec<TestCaseResult> = Vec::new();
        let mut rem = outcomes;
        let ghost all = rem@;
        let n = fixtures.len();
        let mut i: usize = 0;
        while i < n
            invariant
                n == fixtures@.len(),
                durations@.len() == n,
                all.len() == n,
                i <= n,
                rs@.len() == i,
                rem@ == all.subrange(i as int, n as int),
                forall|k: int|
                    0 <= k < i ==> #[trigger] judged_entry(
                        rs@[k],
                        fixtures@[k],
                        dir@,
                        all[k],
                        durations@[k],
                    ),
            decreases n - i,
        {
            let o = rem.remove(0);
            proof {
                assert(o == all[i as int]);
                assert(rem@ =~= all.subrange(i as int + 1, n as int));
            }
            let fx = &fixtures[i];
            let r = Self::evaluate_fixture(dir, fx, o, durations[i]);
            let ghost old_rs = rs@;
            rs.push(r);
            proof {
                assert forall|k: int| 0 <= k < i as int + 1 implies #[trigger] judged_entry(
                    rs@[k],
                    fixtures@[k],
                    dir@,
                    all[k],
                    durations@[k],
                ) by {
                    if k == i as int {
                        assert(rs@[k] == r);
                        assert(*fx == fixtures@[i as int]);
                        assert(judged_entry(r, fixtures@[k], dir@, all[k], durations@[k]));
                    } else {
                        assert(rs@[k] == old_rs[k]);
                        assert(judged_entry(old_rs[k], fixtures@[k], dir@, all[k], durations@[k]));
                    }
                }
            }
            i += 1;
        }
        rs
    }

    /// All results for one target directory. When compilation failed, every
    /// fixture is a `CompileFailed` run error and no outcome is consulted;
    /// otherwise each fixture is judged against its run outcome.
    pub fn target_results(
        dir: &String,
        fixtures: &Vec<Fixture>,
        compile_ok: bool,
        outcomes: Vec<RunOutcome>,
        durations: &Vec<u64>,
    ) -> (rs: Vec<TestCaseResult>)
        requires
            compile_ok ==> outcomes@.len() == fixtures@.len(),
            compile_ok ==> durations@.len() == fixtures@.len(),
        ensures
            rs@.len() == fixtures@.len(),
            !compile_ok ==> forall|k: int|
                0 <= k < rs@.len() ==> #[trigger] compile_failed_entry(
                    rs@[k],
                    fixtures@[k],
                    dir@,
                ),
            compile_ok ==> forall|k: int|
                0 <= k < rs@.len() ==> #[trigger] judged_entry(
                    rs@[k],
                    fixtures@[k],
                    dir@,
                    outcomes@[k],
                    durations@[k],
                ),
    {
        if compile_ok {
            Self::evaluate_outcomes(dir, fixtures, outcomes, durations)
        } else {
            Self::mark_compile_failed(dir, fixtures)
        }
    }

    /// Index of the entry with the given key, if one exists.
    fn find_key(counts: &Vec<KeyCount>, key: &String) -> (r: Option<usize>)
        ensures
            match r {
                Some(k) => k < counts@.len() && counts@[k as int].key@ == key@,
                None => forall|k: int| 0 <= k < counts@.len() ==> counts@[k].key@ != key@,
            },
    {
        let m = counts.len();
        let mut k: usize = 0;
        while k < m
            invariant
                m == counts@.len(),
                k <= m,
                forall|l: int| 0 <= l < k ==> counts@[l].key@ != key@,
            decreases m - k,
        {
            if counts[k].key == *key {
                return Some(k);
            }
            k += 1;
        }
        None
    }

    /// The counts list remains correct when the entry of the current
    /// result's key is incremented in the class of its verdict.
    #[verifier::rlimit(60)]
    proof fn lemma_counts_found(
        counts0: Seq<KeyCount>,
        counts1: Seq<KeyCount>,
        rs: Seq<TestCaseResult>,
        i: int,
        ki: int,
        by_dir: bool,
    )
        requires
            counts_correct(counts0, rs.take(i), by_dir),
            0 <= i < rs.len(),
            0 <= ki < counts0.len(),
            counts1.len() == counts0.len(),
            counts0[ki].key@ == key_of(rs[i], by_dir),
            forall|k: int| 0 <= k < counts0.len() && k != ki ==> counts1[k] == counts0[k],
            counts1[ki].key@ == counts0[ki].key@,
            counts1[ki].pass == counts0[ki].pass + (if verdict_is(rs[i].verdict, VerdictKind::Pass) {
                1int
            } else {
                0int
            }),
            counts1[ki].fail == counts0[ki].fail + (if verdict_is(rs[i].verdict, VerdictKind::Fail) {
                1int
            } else {
                0int
            }),
            counts1[ki].error == counts0[ki].error + (if verdict_is(
                rs[i].verdict,
                VerdictKind::Error,
            ) {
                1int
            } else {
                0int
            }),
        ensures
            counts_correct(counts1, rs.take(i + 1), by_dir),
    {
        let t = rs.take(i);
        let t1 = rs.take(i + 1);
        assert forall|k: int| 0 <= k < counts1.len() implies {
            &&& counts1[k].pass == count_verdicts(t1, counts1[k].key@, by_dir, VerdictKind::Pass)
            &&& counts1[k].fail == count_verdicts(t1, counts1[k].key@, by_dir, VerdictKind::Fail)
            &&& counts1[k].error == count_verdicts(t1, counts1[k].key@, by_dir, VerdictKind::Error)
        } by {
            lemma_count_step(rs, i, counts1[k].key@, by_dir, VerdictKind::Pass);
            lemma_count_step(rs, i, counts1[k].key@, by_dir, VerdictKind::Fail);
            lemma_count_step(rs, i, counts1[k].key@, by_dir, VerdictKind::Error);
            if k != ki {
                if k < ki {
                    assert(counts0[k].key@ != counts0[ki].key@);
                } else {
                    assert(counts0[ki].key@ != counts0[k].key@);
                }
            }
        }
        assert forall|k: int, l: int| 0 <= k < l < counts1.len() implies counts1[k].key@
            != counts1[l].key@ by {
            assert(counts1[k].key@ == counts0[k].key@);
            assert(counts1[l].key@ == counts0[l].key@);
        }
        assert forall|j: int| #![trigger key_of(t1[j], by_dir)] 0 <= j < t1.len() implies exists|
            k: int,
        |
            #![trigger counts1[k].key@]
            0 <= k < counts1.len() && counts1[k].key@ == key_of(t1[j], by_dir) by {
            assert(t1[j] == rs[j]);
            if j < i {
                assert(t[j] == rs[j]);
                let k = choose|k: int|
                    0 <= k < counts0.len() && counts0[k].key@ == key_of(t[j], by_dir);
                assert(counts1[k].key@ == counts0[k].key@);
                assert(counts1[k].key@ == key_of(t1[j], by_dir));
            } else {
                assert(counts1[ki].key@ == key_of(t1[j], by_dir));
            }
        }
        assert forall|k: int| #![trigger counts1[k].key@] 0 <= k < counts1.len() implies exists|
            j: int,
        |
            #![trigger key_of(t1[j], by_dir)]
            0 <= j < t1.len() && counts1[k].key@ == key_of(t1[j], by_dir) by {
            assert(counts1[k].key@ == counts0[k].key@);
            let j = choose|j: int| 0 <= j < t.len() && counts0[k].key@ == key_of(t[j], by_dir);
            assert(t1[j] == rs[j]);
            assert(t[j] == rs[j]);
            assert(counts1[k].key@ == key_of(t1[j], by_dir));
        }
    }

    /// The counts list remains correct when a key not seen before is appended
    /// with a one in the class of the current result's verdict.
    #[verifier::rlimit(60)]
    proof fn lemma_counts_new(
        counts0: Seq<KeyCount>,
        counts1: Seq<KeyCount>,
        c: KeyCount,
        rs: Seq<TestCaseResult>,
        i: int,
        by_dir: bool,
    )
        requires
            counts_correct(counts0, rs.take(i), by_dir),
            0 <= i < rs.len(),
            forall|k: int| 0 <= k < counts0.len() ==> counts0[k].key@ != key_of(rs[i], by_dir),
            counts1 == counts0.push(c),
            c.key@ == key_of(rs[i], by_dir),
            c.pass == (if verdict_is(rs[i].verdict, VerdictKind::Pass) {
                1int
            } else {
                0int
            }),
            c.fail == (if verdict_is(rs[i].verdict, VerdictKind::Fail) {
                1int
            } else {
                0int
            }),
            c.error == (if verdict_is(rs[i].verdict, VerdictKind::Error) {
                1int
            } else {
                0int
            }),
        ensures
            counts_correct(counts1, rs.take(i + 1), by_dir),
    {
        let t = rs.take(i);
        let t1 = rs.take(i + 1);
        let m = counts0.len() as int;
        assert forall|j: int| 0 <= j < t.len() implies key_of(t[j], by_dir) != key_of(
            rs[i],
            by_dir,
        ) by {
            assert(t[j] == rs[j]);
            let k = choose|k: int| 0 <= k < counts0.len() && counts0[k].key@ == key_of(t[j], by_dir);
            assert(counts0[k].key@ != key_of(rs[i], by_dir));
        }
        lemma_count_zero(t, key_of(rs[i], by_dir), by_dir, VerdictKind::Pass);
        lemma_count_zero(t, key_of(rs[i], by_dir), by_dir, VerdictKind::Fail);
        lemma_count_zero(t, key_of(rs[i], by_dir), by_dir, VerdictKind::Error);
        assert forall|k: int| 0 <= k < counts1.len() implies {
            &&& counts1[k].pass == count_verdicts(t1, counts1[k].key@, by_dir, VerdictKind::Pass)
            &&& counts1[k].fail == count_verdicts(t1, counts1[k].key@, by_dir, VerdictKind::Fail)
            &&& counts1[k].error == count_verdicts(t1, counts1[k].key@, by_dir, VerdictKind::Error)
        } by {
            lemma_count_step(rs, i, counts1[k].key@, by_dir, VerdictKind::Pass);
            lemma_count_step(rs, i, counts1[k].key@, by_dir, VerdictKind::Fail);
            lemma_count_step(rs, i, counts1[k].key@, by_dir, VerdictKind::Error);
            if k < m {
                assert(counts1[k] == counts0[k]);
                assert(counts0[k].key@ != key_of(rs[i], by_dir));
            } else {
                assert(counts1[k] == c);
            }
        }
        assert forall|k: int, l: int| 0 <= k < l < counts1.len() implies counts1[k].key@
            != counts1[l].key@ by {
            if l < m {
                assert(counts1[k] == counts0[k]);
                assert(counts1[l] == counts0[l]);
                assert(counts0[k].key@ != counts0[l].key@);
            } else {
                assert(counts1[k] == counts0[k]);
                assert(counts0[k].key@ != key_of(rs[i], by_dir));
            }
        }
        assert forall|j: int| #![trigger key_of(t1[j], by_dir)] 0 <= j < t1.len() implies exists|
            k: int,
        |
            #![trigger counts1[k].key@]
            0 <= k < counts1.len() && counts1[k].key@ == key_of(t1[j], by_dir) by {
            assert(t1[j] == rs[j]);
            if j < i {
                assert(t[j] == rs[j]);
                let k = choose|k: int|
                    0 <= k < counts0.len() && counts0[k].key@ == key_of(t[j], by_dir);
                assert(counts1[k] == counts0[k]);
                assert(counts1[k].key@ == key_of(t1[j], by_dir));
            } else {
                assert(counts1[m].key@ == key_of(t1[j], by_dir));
            }
        }
        assert forall|k: int| #![trigger counts1[k].key@] 0 <= k < counts1.len() implies exists|
            j: int,
        |
            #![trigger key_of(t1[j], by_dir)]
            0 <= j < t1.len() && counts1[k].key@ == key_of(t1[j], by_dir) by {
            if k < m {
                assert(counts1[k] == counts0[k]);
                let j = choose|j: int| 0 <= j < t.len() && counts0[k].key@ == key_of(t[j], by_dir);
                assert(t1[j] == rs[j]);
                assert(t[j] == rs[j]);
                assert(counts1[k].key@ == key_of(t1[j], by_dir));
            } else {
                assert(t1[i] == rs[i]);
                assert(counts1[k].key@ == key_of(t1[i], by_dir));
            }
        }
    }

    /// Pass/fail/error totals of the results, grouped by target directory
    /// when `by_dir` is set and by test folder otherwise.
    pub fn aggregate_counts(results: &Vec<TestCaseResult>, by_dir: bool) -> (counts: Vec<KeyCount>)
        ensures
            counts_correct(counts@, results@, by_dir),
    {
        let mut counts: Vec<KeyCount> = Vec::new();
        let n = results.len();
        let mut i: usize = 0;
        proof {
            assert(results@.take(0) =~= Seq::<TestCaseResult>::empty());
        }
        while i < n
            invariant
                n == results@.len(),
                i <= n,
                counts_correct(counts@, results@.take(i as int), by_dir),
            decreases n - i,
        {
            let ghost rs = results@;
            let ghost t = rs.take(i as int);
            let key: &String = if by_dir {
                &results[i].dir
            } else {
                &results[i].folder
            };
            proof {
                assert(key@ == key_of(rs[i as int], by_dir));
                assert(t.len() == i as int);
            }
            match Self::find_key(&counts, key) {
                Some(ki) => {
                    let ghost counts0 = counts@;
                    proof {
                        lemma_count_bound(t, counts0[ki as int].key@, by_dir, VerdictKind::Pass);
                        lemma_count_bound(t, counts0[ki as int].key@, by_dir, VerdictKind::Fail);
                        lemma_count_bound(t, counts0[ki as int].key@, by_dir, VerdictKind::Error);
                    }
                    let mut c = counts.remove(ki);
                    match &results[i].verdict {
                        Verdict::Pass => {
                            c.pass += 1;
                        },
                        Verdict::Fail { .. } => {
                            c.fail += 1;
                        },
                        Verdict::RunError { .. } => {
                            c.error += 1;
                        },
                    }
                    counts.insert(ki, c);
                    proof {
                        assert(counts@ == counts0.remove(ki as int).insert(
                            ki as int,
                            counts@[ki as int],
                        ));
                        assert forall|k: int| 0 <= k < counts0.len() && k != ki implies counts@[k]
                            == counts0[k] by {}
                        Self::lemma_counts_found(counts0, counts@, rs, i as int, ki as int, by_dir);
                    }
                },
                None => {
                    let ghost counts0 = counts@;
                    let mut c = KeyCount { key: key.clone(), pass: 0, fail: 0, error: 0 };
                    match &results[i].verdict {
                        Verdict::Pass => {
                            c.pass = 1;
                        },
                        Verdict::Fail { .. } => {
                            c.fail = 1;
                        },
                        Verdict::RunError { .. } => {
                            c.error = 1;
                        },
                    }
                    let ghost gc = c;
                    counts.push(c);
                    proof {
                        Self::lemma_counts_new(counts0, counts@, gc, rs, i as int, by_dir);
                    }
                },
            }
            i += 1;
        }
        proof {
            assert(results@.take(n as int) =~= results@);
        }
        counts
    }

    /// The full report of one test pass over the given judged results:
    /// the results themselves, and totals per test folder and per target
    /// directory.
    pub fn build_report(results: Vec<TestCaseResult>) -> (rep: TestReport)
        ensures
            rep.results == results,
            counts_correct(rep.folder_counts@, results@, false),
            counts_correct(rep.directory_counts@, results@, true),
    {
        let folder_counts = Self::aggregate_counts(&results, false);
        let directory_counts = Self::aggregate_counts(&results, true);
        TestReport { results, folder_counts, directory_counts }
    }
}

} // verus!
