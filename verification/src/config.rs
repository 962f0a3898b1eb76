//! A run: its parameters, the capability that every kind of test has, the
//! ordered test cases, and the report on them.

use crate::probe::{
    Attempt, ProbeRequest, ProbeRequestView, TestError, classified, request_view,
};
use crate::test_case::{CaseReport, CaseReportView, TestCase, TestResult, TestSummary};
use vstd::prelude::*;

verus! {

/// Run-wide settings, shared by all probes of a run.
#[derive(Clone, Copy, Debug, PartialEq, Eq)]
pub struct Parameters {
    /// The deadline of every probe, in seconds. Where it is absent each
    /// prober uses its own default.
    pub timeout_seconds: Option<u64>,
}

/// The deadline that a probe runs under: the run-wide one where it is set,
/// else the prober's default.
pub open spec fn effective_timeout(parameters: Option<Parameters>, default_seconds: u64) -> u64 {
    match parameters {
        Some(Parameters { timeout_seconds: Some(seconds) }) => seconds,
        _ => default_seconds,
    }
}

/// Returns the deadline that a probe runs under, in seconds.
pub fn timeout_or(parameters: &Option<Parameters>, default_seconds: u64) -> (seconds: u64)
    ensures
        seconds == effective_timeout(*parameters, default_seconds),
{
    match parameters {
        Some(Parameters { timeout_seconds: Some(seconds) }) => *seconds,
        _ => default_seconds,
    }
}

/// What running a test on an observation returns: nothing where the
/// observation is an outcome, else the probe error.
pub open spec fn run_result(attempt: Attempt) -> Result<(), TestError> {
    match classified(attempt) {
        Ok(_) => Ok(()),
        Err(error) => Err(error),
    }
}

/// A test of one protocol: it says what to probe, takes the observation, and
/// holds it against what it expects.
pub trait Test: Sized {
    /// Whether an observed outcome is attached to the test.
    spec fn has_run(&self) -> bool;

    /// The request that the test asks for under the given parameters.
    spec fn request_model(&self, parameters: Option<Parameters>) -> ProbeRequestView;

    /// The test once it has been run on an observation.
    spec fn after(self, attempt: Attempt) -> Self;

    /// The verdict on the attached outcome.
    spec fn verdict(&self) -> TestResult
        recommends
            self.has_run(),
    ;

    /// The line that reports the test under the given name.
    spec fn details(&self, test_name: Seq<char>) -> Seq<char>
        recommends
            self.has_run(),
    ;

    /// Says what the prober is to attempt: the target, the deadline, and how
    /// the attempt is to be made.
    fn request(&self, parameters: &Option<Parameters>) -> (request: ProbeRequest)
        ensures
            request@ == self.request_model(*parameters),
    ;

    /// Takes the observation of the attempt. An outcome is attached to the
    /// test; a probe error leaves the test as it was.
    fn run(&mut self, attempt: &Attempt) -> (result: Result<(), TestError>)
        ensures
            result == run_result(*attempt),
            *final(self) == old(self).after(*attempt),
            result is Ok ==> final(self).has_run(),
            result is Err ==> *final(self) == *old(self),
    ;

    /// Holds the attached outcome against the expected one.
    fn compare_results(&self, test_name: &str) -> (summary: TestSummary)
        requires
            self.has_run(),
        ensures
            summary.result == self.verdict(),
            summary.details@ == self.details(test_name@),
    ;
}

/// The test cases of a run, in the order in which they were configured, and
/// the parameters that they share.
#[derive(Clone, Debug, PartialEq, Eq)]
pub struct TestConfig {
    pub parameters: Option<Parameters>,
    pub tests: Vec<TestCase>,
}

/// The report on a run: one entry for each test case, in configuration
/// order, and whether the run failed.
#[derive(Clone, Debug, PartialEq, Eq)]
pub struct Report {
    pub entries: Vec<CaseReport>,
    /// Some test case did not pass: it failed, or it contributed an error.
    pub failed: bool,
}

/// The test cases after the observation for the one at `index` has been
/// recorded. An index that names no test case changes nothing.
pub open spec fn recorded(tests: Seq<TestCase>, index: int, attempt: Attempt) -> Seq<TestCase> {
    if 0 <= index < tests.len() {
        tests.update(index, tests[index].after(attempt))
    } else {
        tests
    }
}

/// The test cases after a sequence of completions has been recorded one by
/// one, in the order in which they arrived. A completion is the index of a
/// test case with the observation for it.
pub open spec fn replayed(tests: Seq<TestCase>, completions: Seq<(int, Attempt)>) -> Seq<
    TestCase,
>
    decreases completions.len(),
{
    if completions.len() == 0 {
        tests
    } else {
        recorded(
            replayed(tests, completions.drop_last()),
            completions.last().0,
            completions.last().1,
        )
    }
}

/// No two completions are for the same test case.
pub open spec fn one_completion_each(completions: Seq<(int, Attempt)>) -> bool {
    forall|i: int, j: int|
        0 <= i < j < completions.len() ==> (#[trigger] completions[i]).0 != (
        #[trigger] completions[j]).0
}

/// The two sequences hold the same completions, in whatever order.
pub open spec fn same_completions(
    first: Seq<(int, Attempt)>,
    second: Seq<(int, Attempt)>,
) -> bool {
    forall|completion: (int, Attempt)|
        first.contains(completion) <==> second.contains(completion)
}

/// What a replay leaves of each test case does not depend on the order of
/// arrival. Where no two completions are for the same test case, a test
/// case with a completion is what its own observation made of it, and a
/// test case without one is unchanged.
pub proof fn lemma_replay_is_pointwise(tests: Seq<TestCase>, completions: Seq<(int, Attempt)>)
    requires
        one_completion_each(completions),
    ensures
        replayed(tests, completions).len() == tests.len(),
        forall|k: int, i: int|
            0 <= k < tests.len() && 0 <= i < completions.len() && (#[trigger] completions[i]).0
                == k ==> (#[trigger] replayed(tests, completions)[k]) == tests[k].after(
                completions[i].1,
            ),
        forall|k: int|
            0 <= k < tests.len() && (forall|i: int|
                0 <= i < completions.len() ==> (#[trigger] completions[i]).0 != k)
                ==> (#[trigger] replayed(tests, completions)[k]) == tests[k],
    decreases completions.len(),
{
    if completions.len() > 0 {
        let earlier = completions.drop_last();
        assert(forall|i: int| 0 <= i < earlier.len() ==> earlier[i] == completions[i]);
        lemma_replay_is_pointwise(tests, earlier);
    }
}

/// The order in which the probes complete does not show in the outcome of
/// a run. Two replays of the same completions, one for each test case at
/// most, leave the same test cases, in configuration order, and so the same
/// report.
pub proof fn lemma_completion_order_is_irrelevant(
    tests: Seq<TestCase>,
    first: Seq<(int, Attempt)>,
    second: Seq<(int, Attempt)>,
)
    requires
        one_completion_each(first),
        one_completion_each(second),
        same_completions(first, second),
    ensures
        replayed(tests, first) == replayed(tests, second),
        forall|k: int|
            0 <= k < tests.len() ==> replayed(tests, first)[k].report_model() == replayed(
                tests,
                second,
            )[k].report_model(),
{
    lemma_replay_is_pointwise(tests, first);
    lemma_replay_is_pointwise(tests, second);
    let left = replayed(tests, first);
    let right = replayed(tests, second);
    assert forall|k: int| 0 <= k < tests.len() implies left[k] == right[k] by {
        if exists|i: int| 0 <= i < first.len() && (#[trigger] first[i]).0 == k {
            let i = choose|i: int| 0 <= i < first.len() && (#[trigger] first[i]).0 == k;
            assert(second.contains(first[i]));
            let j = choose|j: int| 0 <= j < second.len() && second[j] == first[i];
            assert(right[k] == tests[k].after(second[j].1));
        } else {
            assert forall|j: int| 0 <= j < second.len() implies (#[trigger] second[j]).0
                != k by {
                assert(first.contains(second[j]));
            }
        }
    }
    assert(left =~= right);
}

/// A test case that names no protocol, or both, is a configuration error
/// and contributes no summary. Asking for its request and running it both
/// fail with that error, whatever was observed; no replay of completions
/// changes it; and the report holds the error in its place.
pub proof fn lemma_ill_formed_case_contributes_no_summary(
    tests: Seq<TestCase>,
    completions: Seq<(int, Attempt)>,
    k: int,
    parameters: Option<Parameters>,
    attempt: Attempt,
)
    requires
        0 <= k < tests.len(),
        !tests[k].well_formed(),
    ensures
        tests[k].request_model(parameters) == Err::<ProbeRequestView, TestError>(
            TestError::Configuration,
        ),
        tests[k].run_result(attempt) == Err::<(), TestError>(TestError::Configuration),
        tests[k].after(attempt) == tests[k],
        replayed(tests, completions).len() == tests.len(),
        replayed(tests, completions)[k] == tests[k],
        replayed(tests, completions)[k].report_model() == (CaseReportView::Error {
            error: TestError::Configuration,
        }),
    decreases completions.len(),
{
    if completions.len() > 0 {
        lemma_ill_formed_case_contributes_no_summary(
            tests,
            completions.drop_last(),
            k,
            parameters,
            attempt,
        );
    }
}

impl TestConfig {
    /// Says what the prober is to attempt for each test case, in
    /// configuration order. A test case that is not well formed has a
    /// configuration error in its place.
    pub fn requests(&self) -> (requests: Vec<Result<ProbeRequest, TestError>>)
        ensures
            requests@.len() == self.tests@.len(),
            forall|i: int|
                0 <= i < self.tests@.len() ==> request_view(#[trigger] requests@[i])
                    == self.tests@[i].request_model(self.parameters),
    {
        let mut requests: Vec<Result<ProbeRequest, TestError>> = Vec::new();
        let mut i: usize = 0;
        while i < self.tests.len()
            invariant
                i <= self.tests@.len(),
                requests@.len() == i,
                forall|j: int|
                    0 <= j < i ==> request_view(#[trigger] requests@[j])
                        == self.tests@[j].request_model(self.parameters),
            decreases self.tests@.len() - i,
        {
            requests.push(self.tests[i].request(&self.parameters));
            i += 1;
        }
        requests
    }

    /// Records the observation for the test case at `index`, whenever it
    /// arrives. Returns what running that test case on it returned, or
    /// `None` where `index` names no test case. No other test case is
    /// touched.
    pub fn record(&mut self, index: usize, attempt: &Attempt) -> (result: Option<
        Result<(), TestError>,
    >)
        ensures
            final(self).parameters == old(self).parameters,
            final(self).tests@ == recorded(old(self).tests@, index as int, *attempt),
            result == if index < old(self).tests@.len() {
                Some(old(self).tests@[index as int].run_result(*attempt))
            } else {
                None
            },
    {
        if index < self.tests.len() {
            let result = self.tests[index].run(attempt);
            Some(result)
        } else {
            None
        }
    }

    /// Reports on the run as it stands: for each test case, in
    /// configuration order, its summary or the error that it contributes
    /// in place of one. The run has failed when some test case did not
    /// pass.
    pub fn report(&self) -> (report: Report)
        ensures
            report.entries@.len() == self.tests@.len(),
            forall|i: int|
                0 <= i < self.tests@.len() ==> (#[trigger] report.entries@[i])@
                    == self.tests@[i].report_model(),
            report.failed <==> exists|i: int|
                0 <= i < self.tests@.len() && !(#[trigger] self.tests@[i]).passed(),
    {
        let mut entries: Vec<CaseReport> = Vec::new();
        let mut failed = false;
        let mut i: usize = 0;
        while i < self.tests.len()
            invariant
                i <= self.tests@.len(),
                entries@.len() == i,
                forall|j: int|
                    0 <= j < i ==> (#[trigger] entries@[j])@ == self.tests@[j].report_model(),
                failed <==> exists|j: int| 0 <= j < i && !(#[trigger] self.tests@[j]).passed(),
            decreases self.tests@.len() - i,
        {
            let entry = self.tests[i].report();
            match &entry {
                CaseReport::Summary(TestSummary { result: TestResult::Pass, .. }) => {},
                _ => {
                    failed = true;
                },
            }
            entries.push(entry);
            i += 1;
        }
        Report { entries, failed }
    }
}

} // verus!
