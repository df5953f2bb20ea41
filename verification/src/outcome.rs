//! Per-test outcomes and the run's aggregation: classifying how a test
//! body ended, the failure signals that classification produces, the
//! per-test report line, and the whole run's report and exit decision.
use vstd::prelude::*;
use vstd::string::*;
use crate::harness::{TestMessage, listener_state_after};

verus! {

/// How one test body ended: a passing run, a failed comparison inside the
/// test, or an unexpected runtime fault caught by the isolation wrapper.
#[derive(Clone, Copy, PartialEq, Eq, Structural, Debug)]
pub enum TestOutcome {
    Passed,
    LogicalFailure,
    RuntimeFault,
}

pub open spec fn outcome_passed(o: TestOutcome) -> bool {
    o is Passed
}

/// Classifies what the isolation wrapper caught: a body that ran to
/// completion reports whether it succeeded, a body that did not run to
/// completion is a runtime fault.
pub fn classify_test_result(completed: Option<bool>) -> (r: TestOutcome)
    ensures
        r == (match completed {
            Option::Some(true) => TestOutcome::Passed,
            Option::Some(false) => TestOutcome::LogicalFailure,
            Option::None => TestOutcome::RuntimeFault,
        }),
{
    match completed {
        Option::Some(true) => TestOutcome::Passed,
        Option::Some(false) => TestOutcome::LogicalFailure,
        Option::None => TestOutcome::RuntimeFault,
    }
}

/// Whether the outcome counts as a success.
pub fn is_success(outcome: &TestOutcome) -> (r: bool)
    ensures
        r == outcome_passed(*outcome),
{
    match outcome {
        TestOutcome::Passed => true,
        TestOutcome::LogicalFailure => false,
        TestOutcome::RuntimeFault => false,
    }
}

/// Whether the test task must signal its listener before ending: it does
/// exactly when the outcome is not a success.
pub fn needs_failure_signal(outcome: &TestOutcome) -> (r: bool)
    ensures
        r == !outcome_passed(*outcome),
{
    match outcome {
        TestOutcome::Passed => false,
        TestOutcome::LogicalFailure => true,
        TestOutcome::RuntimeFault => true,
    }
}

/// The failure signals a test task sends for its outcome: none on
/// success, one MarkFailed otherwise.
pub open spec fn failure_signals(o: TestOutcome) -> Seq<TestMessage> {
    if o is Passed {
        Seq::empty()
    } else {
        seq![TestMessage::MarkFailed]
    }
}

/// Retention policy, end to end: a fresh listener that receives exactly
/// the signals produced for its test's outcome decides to release the
/// ephemeral database iff the test passed, and retains it otherwise.
pub proof fn lemma_cleanup_iff_passed(outcome: TestOutcome)
    ensures
        listener_state_after(true, failure_signals(outcome)) == outcome_passed(outcome),
{
    if !(outcome is Passed) {
        assert(failure_signals(outcome).drop_last() =~= Seq::<TestMessage>::empty());
    }
}

/// One joined test task, as the orchestrator sees it: either the task
/// finished and reported its test's name and verdict, or the isolation
/// wrapper itself failed — designed to be unreachable, counted as failure.
pub enum JoinOutcome {
    Finished(String, bool),
    Panicked,
}

pub open spec fn joined_passed(j: JoinOutcome) -> bool {
    j matches JoinOutcome::Finished(_, passed) && passed
}

pub open spec fn finished_name(j: JoinOutcome) -> Seq<char> {
    match j {
        JoinOutcome::Finished(name, _) => name@,
        JoinOutcome::Panicked => Seq::empty(),
    }
}

/// Whether every joined task finished with a passing verdict.
pub open spec fn all_passed(joined: Seq<JoinOutcome>) -> bool {
    forall|i: int| 0 <= i < joined.len() ==> joined_passed(#[trigger] joined[i])
}

/// The console line reporting one test's verdict.
pub open spec fn report_line_spec(name: Seq<char>, passed: bool) -> Seq<char> {
    "test "@ + name + " ... "@ + (if passed {
        "ok"@
    } else {
        "fail"@
    })
}

/// The report lines of a run, one per finished task, in join order.
pub open spec fn finished_lines(joined: Seq<JoinOutcome>) -> Seq<Seq<char>>
    decreases joined.len(),
{
    if joined.len() == 0 {
        Seq::empty()
    } else {
        let front = finished_lines(joined.drop_last());
        match joined.last() {
            JoinOutcome::Finished(name, passed) => front.push(report_line_spec(name@, passed)),
            JoinOutcome::Panicked => front,
        }
    }
}

/// The console line for one test's verdict.
pub fn report_line(name: &str, passed: bool) -> (r: String)
    ensures
        r@ == report_line_spec(name@, passed),
{
    let tail: &str = if passed {
        "ok"
    } else {
        "fail"
    };
    String::from_str("test ").concat(name).concat(" ... ").concat(tail)
}

/// Whether one joined task counts as a success: a join-level fault is
/// treated as failure.
pub fn joined_is_success(joined: &JoinOutcome) -> (r: bool)
    ensures
        r == joined_passed(*joined),
{
    match joined {
        JoinOutcome::Finished(_, passed) => *passed,
        JoinOutcome::Panicked => false,
    }
}

/// What a whole run reports: one line per finished test, and whether
/// every test succeeded, which decides the process exit status.
pub struct RunReport {
    pub lines: Vec<String>,
    pub all_passed: bool,
}

proof fn lemma_all_passed_step(s: Seq<JoinOutcome>, i: int)
    requires
        0 <= i < s.len(),
    ensures
        all_passed(s.take(i + 1)) == (all_passed(s.take(i)) && joined_passed(s[i])),
{
    let a = s.take(i);
    let b = s.take(i + 1);
    assert(b[i] == s[i]);
    if all_passed(a) && joined_passed(s[i]) {
        assert forall|j: int| 0 <= j < b.len() implies joined_passed(#[trigger] b[j]) by {
            if j < i {
                assert(b[j] == a[j]);
            }
        }
    }
    if all_passed(b) {
        assert forall|j: int| 0 <= j < a.len() implies joined_passed(#[trigger] a[j]) by {
            assert(a[j] == b[j]);
        }
    }
}

/// Folds the joined tasks into the run's report: the lines in join order
/// and the overall verdict. Every element is taken into account; a later
/// failure never suppresses an earlier test's line, nor the reverse.
pub fn collect_results(joined: &Vec<JoinOutcome>) -> (r: RunReport)
    ensures
        r.all_passed == all_passed(joined@),
        r.lines@.map_values(|l: String| l@) =~= finished_lines(joined@),
{
    let n: usize = joined.len();
    let mut lines: Vec<String> = Vec::new();
    let mut ok: bool = true;
    let mut i: usize = 0;
    while i < n
        invariant
            n == joined@.len(),
            i <= n,
            ok == all_passed(joined@.take(i as int)),
            lines@.map_values(|l: String| l@) =~= finished_lines(joined@.take(i as int)),
        decreases n - i,
    {
        let ghost prev_lines = lines@;
        match &joined[i] {
            JoinOutcome::Finished(name, passed) => {
                let line = report_line(name.as_str(), *passed);
                lines.push(line);
                ok = ok && *passed;
            },
            JoinOutcome::Panicked => {
                ok = false;
            },
        }
        proof {
            lemma_all_passed_step(joined@, i as int);
            assert(joined@.take(i + 1 as int).drop_last() =~= joined@.take(i as int));
            assert(joined@.take(i + 1 as int).last() == joined@[i as int]);
            assert(lines@.map_values(|l: String| l@) =~= finished_lines(
                joined@.take(i + 1 as int),
            )) by {
                if joined@[i as int] is Finished {
                    assert(lines@.drop_last() =~= prev_lines);
                    assert(lines@.map_values(|l: String| l@) =~= prev_lines.map_values(
                        |l: String| l@,
                    ).push(lines@.last()@));
                }
            }
        }
        i = i + 1;
    }
    proof {
        assert(joined@.take(n as int) =~= joined@);
    }
    RunReport { lines, all_passed: ok }
}

/// The diagnostic the run ends with when not every test succeeded.
pub fn failure_message() -> (r: String)
    ensures
        r@ == "Some test(s) have failed"@,
{
    String::from_str("Some test(s) have failed")
}

/// In a run whose tasks all finished, the report has exactly one line per
/// test, and the line of each reads `ok` or `fail` by that test's own
/// verdict alone: one test's failure does not change another's line.
pub proof fn lemma_finished_lines_pointwise(joined: Seq<JoinOutcome>)
    requires
        forall|i: int| 0 <= i < joined.len() ==> (#[trigger] joined[i]) is Finished,
    ensures
        finished_lines(joined).len() == joined.len(),
        forall|i: int|
            0 <= i < joined.len() ==> finished_lines(joined)[i] == report_line_spec(
                finished_name(#[trigger] joined[i]),
                joined_passed(joined[i]),
            ),
    decreases joined.len(),
{
    if joined.len() > 0 {
        let front = joined.drop_last();
        assert forall|i: int| 0 <= i < front.len() implies (#[trigger] front[i]) is Finished by {
            assert(front[i] == joined[i]);
        }
        lemma_finished_lines_pointwise(front);
        assert(joined.last() is Finished);
        assert forall|i: int| 0 <= i < joined.len() implies finished_lines(joined)[i]
            == report_line_spec(finished_name(#[trigger] joined[i]), joined_passed(joined[i])) by {
            if i < joined.len() - 1 {
                assert(front[i] == joined[i]);
            }
        }
    }
}

/// When every selected test finished and passed, the run reports success
/// and prints exactly one `ok` line per test.
pub proof fn lemma_all_success_report(joined: Seq<JoinOutcome>)
    requires
        forall|i: int| 0 <= i < joined.len() ==> (#[trigger] joined[i]) is Finished,
        all_passed(joined),
    ensures
        finished_lines(joined).len() == joined.len(),
        forall|i: int|
            0 <= i < joined.len() ==> finished_lines(joined)[i] == report_line_spec(
                finished_name(#[trigger] joined[i]),
                true,
            ),
{
    lemma_finished_lines_pointwise(joined);
}

/// When one test of a finished run failed, the run reports failure, that
/// test's line reads `fail`, and every other test still reports by its
/// own verdict.
pub proof fn lemma_one_failure_report(joined: Seq<JoinOutcome>, f: int)
    requires
        forall|i: int| 0 <= i < joined.len() ==> (#[trigger] joined[i]) is Finished,
        0 <= f < joined.len(),
        !joined_passed(joined[f]),
    ensures
        !all_passed(joined),
        finished_lines(joined).len() == joined.len(),
        finished_lines(joined)[f] == report_line_spec(finished_name(joined[f]), false),
        forall|i: int|
            0 <= i < joined.len() ==> finished_lines(joined)[i] == report_line_spec(
                finished_name(#[trigger] joined[i]),
                joined_passed(joined[i]),
            ),
{
    lemma_finished_lines_pointwise(joined);
}

} // verus!
