//! A named test case: exactly one protocol test, its run, and its verdict.

use crate::config::{Parameters, Test};
use crate::http_test::HttpTest;
use crate::outcome::TcpConnectionResult;
use crate::probe::{
    Attempt, ProbeRequest, ProbeRequestView, ProbeResult, TestError, classified, request_view,
};
use crate::tcp_test::TcpTest;
use vstd::prelude::*;

verus! {

/// The verdict on one test case.
#[derive(Clone, Copy, Debug, PartialEq, Eq, Structural)]
pub enum TestResult {
    Pass,
    Fail,
}

/// The verdict on one test case with the line that reports it.
#[derive(Clone, Debug, PartialEq, Eq)]
pub struct TestSummary {
    pub result: TestResult,
    pub details: String,
}

/// What a run has to say of one test case: the summary of a probed one, or
/// the error that kept it from being probed.
#[derive(Clone, Debug, PartialEq, Eq)]
pub enum CaseReport {
    Summary(TestSummary),
    Error(TestError),
}

/// A case report with its text as a sequence of characters.
pub enum CaseReportView {
    Summary { result: TestResult, details: Seq<char> },
    Error { error: TestError },
}

impl View for CaseReport {
    type V = CaseReportView;

    open spec fn view(&self) -> CaseReportView {
        match *self {
            CaseReport::Summary(summary) => CaseReportView::Summary {
                result: summary.result,
                details: summary.details@,
            },
            CaseReport::Error(error) => CaseReportView::Error { error },
        }
    }
}

/// A named test case. It is well formed when it holds exactly one of the two
/// protocol tests.
#[derive(Clone, Debug, PartialEq, Eq)]
pub struct TestCase {
    pub name: String,
    pub tcp: Option<TcpTest>,
    pub http: Option<HttpTest>,
}

impl TestCase {
    /// Exactly one protocol test is present.
    pub open spec fn well_formed(&self) -> bool {
        (self.tcp is Some) != (self.http is Some)
    }

    /// The test case is well formed and an observed outcome is attached to
    /// its test.
    pub open spec fn probed(&self) -> bool {
        match (self.tcp, self.http) {
            (Some(tcp_test), None) => tcp_test.has_run(),
            (None, Some(http_test)) => http_test.has_run(),
            _ => false,
        }
    }

    /// The outcome that the test case expects.
    pub open spec fn expected(&self) -> TcpConnectionResult
        recommends
            self.well_formed(),
    {
        match self.tcp {
            Some(tcp_test) => tcp_test.expected,
            None => self.http->0.expected,
        }
    }

    /// The status code that the test case expects, if it expects one. A TCP
    /// test expects none.
    pub open spec fn expected_status(&self) -> Option<u16> {
        match (self.tcp, self.http) {
            (None, Some(http_test)) => http_test.expected_status,
            _ => None,
        }
    }

    /// What was observed when the test case ran. A TCP test observes no
    /// status.
    pub open spec fn observed(&self) -> ProbeResult
        recommends
            self.probed(),
    {
        match self.tcp {
            Some(tcp_test) => ProbeResult { outcome: tcp_test.actual->0, status: None },
            None => ProbeResult {
                outcome: self.http->0.actual->0,
                status: self.http->0.actual_status,
            },
        }
    }

    /// The request that the test case asks for: that of its test, or a
    /// configuration error where it is not well formed.
    pub open spec fn request_model(&self, parameters: Option<Parameters>) -> Result<
        ProbeRequestView,
        TestError,
    > {
        match (self.tcp, self.http) {
            (Some(tcp_test), None) => Ok(tcp_test.request_model(parameters)),
            (None, Some(http_test)) => Ok(http_test.request_model(parameters)),
            _ => Err(TestError::Configuration),
        }
    }

    /// What running the test case on an observation returns: a
    /// configuration error where it is not well formed, a probe error where
    /// the observation is no outcome, else nothing.
    pub open spec fn run_result(&self, attempt: Attempt) -> Result<(), TestError> {
        if !self.well_formed() {
            Err(TestError::Configuration)
        } else {
            crate::config::run_result(attempt)
        }
    }

    /// The test case once it has been run on an observation: its test holds
    /// the outcome. It is unchanged where it is not well formed or the
    /// observation is no outcome.
    pub open spec fn after(self, attempt: Attempt) -> TestCase {
        match (self.tcp, self.http) {
            (Some(tcp_test), None) => TestCase { tcp: Some(tcp_test.after(attempt)), ..self },
            (None, Some(http_test)) => TestCase { http: Some(http_test.after(attempt)), ..self },
            _ => self,
        }
    }

    /// The verdict on a probed test case.
    pub open spec fn verdict(&self) -> TestResult
        recommends
            self.probed(),
    {
        match self.tcp {
            Some(tcp_test) => tcp_test.verdict(),
            None => self.http->0.verdict(),
        }
    }

    /// The line that reports a probed test case.
    pub open spec fn details(&self) -> Seq<char>
        recommends
            self.probed(),
    {
        match self.tcp {
            Some(tcp_test) => tcp_test.details(self.name@),
            None => self.http->0.details(self.name@),
        }
    }

    /// Whether a probed test case met its expectation.
    pub open spec fn passed(&self) -> bool {
        self.probed() && self.verdict() == TestResult::Pass
    }

    /// What a run has to say of the test case: the summary of a probed one;
    /// a configuration error for one that is not well formed; a probe error
    /// for a well-formed one that has no outcome attached.
    pub open spec fn report_model(&self) -> CaseReportView {
        if self.probed() {
            CaseReportView::Summary { result: self.verdict(), details: self.details() }
        } else if !self.well_formed() {
            CaseReportView::Error { error: TestError::Configuration }
        } else {
            CaseReportView::Error { error: TestError::Probe }
        }
    }

    /// Returns whether exactly one protocol test is present.
    pub fn is_well_formed(&self) -> (valid: bool)
        ensures
            valid == self.well_formed(),
    {
        self.tcp.is_some() != self.http.is_some()
    }

    /// Returns whether the test case is well formed and has an observed
    /// outcome attached.
    pub fn is_probed(&self) -> (probed: bool)
        ensures
            probed == self.probed(),
    {
        match (&self.tcp, &self.http) {
            (Some(tcp_test), None) => tcp_test.actual.is_some(),
            (None, Some(http_test)) => http_test.actual.is_some(),
            _ => false,
        }
    }

    /// Says what the prober is to attempt for this test case. A test case
    /// with no protocol test, or with both, is a configuration error.
    pub fn request(&self, parameters: &Option<Parameters>) -> (request: Result<
        ProbeRequest,
        TestError,
    >)
        ensures
            request_view(request) == self.request_model(*parameters),
            request is Ok <==> self.well_formed(),
            request is Err ==> request == Err::<ProbeRequest, TestError>(TestError::Configuration),
    {
        match (&self.tcp, &self.http) {
            (Some(tcp_test), None) => Ok(tcp_test.request(parameters)),
            (None, Some(http_test)) => Ok(http_test.request(parameters)),
            _ => Err(TestError::Configuration),
        }
    }

    /// Takes the observation of the attempt that was made for this test
    /// case and attaches the outcome to its test. A test case that is not
    /// well formed is a configuration error, whatever was observed; an
    /// observation that is no outcome is a probe error. Either error leaves
    /// the test case as it was.
    pub fn run(&mut self, attempt: &Attempt) -> (result: Result<(), TestError>)
        ensures
            result == old(self).run_result(*attempt),
            !old(self).well_formed() ==> result == Err::<(), TestError>(TestError::Configuration),
            *final(self) == old(self).after(*attempt),
            final(self).well_formed() == old(self).well_formed(),
            result is Ok ==> final(self).probed() && final(self).observed().outcome == classified(
                *attempt,
            )->Ok_0.outcome,
            result is Err ==> *final(self) == *old(self),
    {
        if !self.is_well_formed() {
            return Err(TestError::Configuration);
        }
        match &mut self.tcp {
            Some(tcp_test) => tcp_test.run(attempt),
            None => match &mut self.http {
                Some(http_test) => http_test.run(attempt),
                None => Err(TestError::Configuration),
            },
        }
    }

    /// Holds the observed outcome of a probed test case against the
    /// expected one. The verdict is `Pass` exactly when the outcomes are
    /// equal and, for an HTTP test that expects a status code, the observed
    /// status is that code.
    pub fn compare_results(&self) -> (summary: TestSummary)
        requires
            self.probed(),
        ensures
            summary.result == self.verdict(),
            summary.details@ == self.details(),
            summary.result == TestResult::Pass <==> self.expected() == self.observed().outcome && (
            self.tcp is Some || self.expected_status() is None || self.expected_status()
                == self.observed().status),
    {
        match &self.tcp {
            Some(tcp_test) => tcp_test.compare_results(self.name.as_str()),
            None => self.http.as_ref().unwrap().compare_results(self.name.as_str()),
        }
    }

    /// Reports on the test case as it stands: the summary where it has been
    /// probed, else the error that it contributes in place of one.
    pub fn report(&self) -> (report: CaseReport)
        ensures
            report@ == self.report_model(),
            report is Summary <==> self.probed(),
            !self.well_formed() ==> report == CaseReport::Error(TestError::Configuration),
    {
        if self.is_probed() {
            CaseReport::Summary(self.compare_results())
        } else if self.is_well_formed() {
            CaseReport::Error(TestError::Probe)
        } else {
            CaseReport::Error(TestError::Configuration)
        }
    }
}

} // verus!
