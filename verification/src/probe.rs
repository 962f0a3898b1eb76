//! What a prober is asked to do, what it reports back, and the classifier
//! that turns the raw observation into an outcome.

use crate::outcome::TcpConnectionResult;
use vstd::prelude::*;

verus! {

/// Why an attempt failed before its deadline.
#[derive(Clone, Copy, Debug, PartialEq, Eq, Structural)]
pub enum Failure {
    /// The remote end actively rejected the connection.
    ConnectionRefused,
    /// Any other failure: name resolution, an unreachable network, TLS, a
    /// malformed response.
    Other,
}

/// The raw observation of one bounded attempt, as the prober saw it.
#[derive(Clone, Copy, Debug, PartialEq, Eq)]
pub enum Attempt {
    /// The transport answered before the deadline. An HTTP exchange carries
    /// the status code of the response it received.
    Answered { status: Option<u16> },
    /// The attempt failed before the deadline.
    Failed { cause: Failure },
    /// The deadline elapsed first.
    Elapsed,
}

/// The classified observation of one attempt.
#[derive(Clone, Copy, Debug, PartialEq, Eq)]
pub struct ProbeResult {
    pub outcome: TcpConnectionResult,
    /// Present only when the outcome is `Connected`.
    pub status: Option<u16>,
}

/// Why a test case produced no summary.
#[derive(Clone, Copy, Debug, PartialEq, Eq, Structural)]
pub enum TestError {
    /// The test case names no protocol, or both.
    Configuration,
    /// The attempt failed in a way that is none of the three outcomes.
    Probe,
}

impl TestError {
    /// The text that describes the error.
    pub open spec fn text(self) -> Seq<char> {
        match self {
            TestError::Configuration => "Test case must have either a TCP or HTTP test defined"@,
            TestError::Probe => "The probe failed before an outcome could be observed"@,
        }
    }

    /// Returns the text that describes the error.
    pub fn message(&self) -> (text: &'static str)
        ensures
            text@ == self.text(),
    {
        match self {
            TestError::Configuration => "Test case must have either a TCP or HTTP test defined",
            TestError::Probe => "The probe failed before an outcome could be observed",
        }
    }
}

/// The outcome that an observation amounts to. An answer is `Connected` and
/// keeps its status; a refusal is `Refused`; an elapsed deadline is
/// `Timeout`; any other failure is no outcome but a probe error.
pub open spec fn classified(attempt: Attempt) -> Result<ProbeResult, TestError> {
    match attempt {
        Attempt::Answered { status } => Ok(
            ProbeResult { outcome: TcpConnectionResult::Connected, status },
        ),
        Attempt::Failed { cause: Failure::ConnectionRefused } => Ok(
            ProbeResult { outcome: TcpConnectionResult::Refused, status: None },
        ),
        Attempt::Failed { cause: Failure::Other } => Err(TestError::Probe),
        Attempt::Elapsed => Ok(ProbeResult { outcome: TcpConnectionResult::Timeout, status: None }),
    }
}

/// Classifies the raw observation of one attempt.
pub fn classify(attempt: &Attempt) -> (result: Result<ProbeResult, TestError>)
    ensures
        result == classified(*attempt),
        result matches Ok(observed) ==> (observed.status is Some ==> observed.outcome
            == TcpConnectionResult::Connected),
{
    match attempt {
        Attempt::Answered { status } => Ok(
            ProbeResult { outcome: TcpConnectionResult::Connected, status: *status },
        ),
        Attempt::Failed { cause: Failure::ConnectionRefused } => Ok(
            ProbeResult { outcome: TcpConnectionResult::Refused, status: None },
        ),
        Attempt::Failed { cause: Failure::Other } => Err(TestError::Probe),
        Attempt::Elapsed => Ok(ProbeResult { outcome: TcpConnectionResult::Timeout, status: None }),
    }
}

/// What a prober is asked to do.
#[derive(Clone, Debug, PartialEq, Eq)]
pub enum ProbeRequest {
    /// Connect to `address`, written as host, colon, port.
    Tcp { address: String, timeout_seconds: u64 },
    /// Issue one GET request for `url`.
    Http { url: String, timeout_seconds: u64, follow_redirects: bool },
}

/// A request with its texts as sequences of characters.
pub enum ProbeRequestView {
    Tcp { address: Seq<char>, timeout_seconds: u64 },
    Http { url: Seq<char>, timeout_seconds: u64, follow_redirects: bool },
}

impl View for ProbeRequest {
    type V = ProbeRequestView;

    open spec fn view(&self) -> ProbeRequestView {
        match *self {
            ProbeRequest::Tcp { address, timeout_seconds } => ProbeRequestView::Tcp {
                address: address@,
                timeout_seconds,
            },
            ProbeRequest::Http { url, timeout_seconds, follow_redirects } => ProbeRequestView::Http {
                url: url@,
                timeout_seconds,
                follow_redirects,
            },
        }
    }
}

/// The outcome of asking for a request, with the request's texts as
/// sequences of characters.
pub open spec fn request_view(request: Result<ProbeRequest, TestError>) -> Result<
    ProbeRequestView,
    TestError,
> {
    match request {
        Ok(request) => Ok(request@),
        Err(error) => Err(error),
    }
}

} // verus!
