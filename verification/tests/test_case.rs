use connectivity_tester::config::Parameters;
use connectivity_tester::http_test::HttpTest;
use connectivity_tester::outcome::TcpConnectionResult::{Connected, Refused, Timeout};
use connectivity_tester::probe::{Attempt, Failure, ProbeRequest, TestError};
use connectivity_tester::tcp_test::TcpTest;
use connectivity_tester::test_case::{CaseReport, TestCase, TestResult, TestSummary};

fn tcp_case(name: &str, host: &str, port: u16) -> TestCase {
    TestCase {
        name: name.to_string(),
        tcp: Some(TcpTest { host: host.to_string(), port, expected: Connected, actual: None }),
        http: None,
    }
}

fn http_case(name: &str, url: &str, expected_status: Option<u16>) -> TestCase {
    TestCase {
        name: name.to_string(),
        tcp: None,
        http: Some(HttpTest {
            url: url.to_string(),
            expected: Connected,
            expected_status,
            redirect: None,
            actual: None,
            actual_status: None,
        }),
    }
}

fn case_with_both() -> TestCase {
    TestCase {
        name: "both".to_string(),
        tcp: tcp_case("", "localhost", 80).tcp,
        http: http_case("", "http://localhost", None).http,
    }
}

fn case_with_neither() -> TestCase {
    TestCase { name: "neither".to_string(), tcp: None, http: None }
}

#[test]
fn a_case_with_one_protocol_is_well_formed() {
    assert!(tcp_case("t", "localhost", 80).is_well_formed());
    assert!(http_case("h", "http://localhost", None).is_well_formed());
    assert!(!case_with_both().is_well_formed());
    assert!(!case_with_neither().is_well_formed());
}

#[test]
fn a_case_with_both_protocols_is_a_configuration_error() {
    let mut case = case_with_both();
    let before = case.clone();
    assert_eq!(Err(TestError::Configuration), case.request(&None));
    assert_eq!(Err(TestError::Configuration), case.run(&Attempt::Answered { status: Some(200) }));
    assert_eq!(Err(TestError::Configuration), case.run(&Attempt::Elapsed));
    assert_eq!(before, case);
    assert!(!case.is_probed());
    assert_eq!(CaseReport::Error(TestError::Configuration), case.report());
}

#[test]
fn a_case_with_no_protocol_is_a_configuration_error() {
    let mut case = case_with_neither();
    let before = case.clone();
    assert_eq!(
        Err(TestError::Configuration),
        case.request(&Some(Parameters { timeout_seconds: Some(5) }))
    );
    assert_eq!(Err(TestError::Configuration), case.run(&Attempt::Answered { status: None }));
    assert_eq!(
        Err(TestError::Configuration),
        case.run(&Attempt::Failed { cause: Failure::Other })
    );
    assert_eq!(before, case);
    assert!(!case.is_probed());
    assert_eq!(CaseReport::Error(TestError::Configuration), case.report());
}

#[test]
fn a_case_with_both_protocols_is_not_probed_even_if_outcomes_are_attached() {
    let mut case = case_with_both();
    case.tcp.as_mut().unwrap().actual = Some(Connected);
    case.http.as_mut().unwrap().actual = Some(Connected);
    assert!(!case.is_probed());
    assert_eq!(CaseReport::Error(TestError::Configuration), case.report());
}

#[test]
fn a_case_asks_for_the_request_of_its_test() {
    assert_eq!(
        Ok(ProbeRequest::Tcp { address: "google.ca:80".to_string(), timeout_seconds: 1 }),
        tcp_case("TCP connected", "google.ca", 80).request(&None)
    );
    assert_eq!(
        Ok(ProbeRequest::Http {
            url: "https://postman-echo.com/status/200".to_string(),
            timeout_seconds: 5,
            follow_redirects: true
        }),
        http_case("HTTP 200", "https://postman-echo.com/status/200", Some(200))
            .request(&Some(Parameters { timeout_seconds: Some(5) }))
    );
}

#[test]
fn running_a_tcp_case_attaches_the_outcome_to_its_test() {
    let mut case = tcp_case("TCP connected", "google.ca", 80);
    assert!(!case.is_probed());
    assert_eq!(Ok(()), case.run(&Attempt::Answered { status: None }));
    assert!(case.is_probed());
    assert_eq!(Some(Connected), case.tcp.as_ref().unwrap().actual);
    assert_eq!("TCP connected", case.name);
    assert!(case.http.is_none());
}

#[test]
fn running_an_http_case_attaches_outcome_and_status() {
    let mut case = http_case("HTTP 404", "https://postman-echo.com/status/404", Some(404));
    assert_eq!(Ok(()), case.run(&Attempt::Answered { status: Some(404) }));
    assert!(case.is_probed());
    let test = case.http.as_ref().unwrap();
    assert_eq!(Some(Connected), test.actual);
    assert_eq!(Some(404), test.actual_status);
    assert!(case.tcp.is_none());
}

#[test]
fn a_probe_error_leaves_the_case_unprobed() {
    let mut case = tcp_case("TCP connected", "nowhere.invalid", 80);
    let before = case.clone();
    assert_eq!(Err(TestError::Probe), case.run(&Attempt::Failed { cause: Failure::Other }));
    assert_eq!(before, case);
    assert!(!case.is_probed());
    assert_eq!(CaseReport::Error(TestError::Probe), case.report());
}

#[test]
fn a_case_that_never_ran_reports_an_error() {
    assert_eq!(
        CaseReport::Error(TestError::Probe),
        http_case("HTTP 200", "http://localhost", None).report()
    );
}

#[test]
fn the_summary_of_a_tcp_case_carries_its_name() {
    let mut case = tcp_case("TCP connected", "google.ca", 80);
    case.run(&Attempt::Answered { status: None }).unwrap();
    let summary = case.compare_results();
    assert_eq!(TestResult::Pass, summary.result);
    assert_eq!("✅  TCP connected - Expected: Connected, Actual: Connected", summary.details);
    assert_eq!(CaseReport::Summary(summary), case.report());
}

#[test]
fn the_summary_of_an_http_case_carries_its_name() {
    let mut case = http_case("HTTP 200", "https://postman-echo.com/status/200", Some(200));
    case.run(&Attempt::Failed { cause: Failure::ConnectionRefused }).unwrap();
    let summary = case.compare_results();
    assert_eq!(
        TestSummary {
            result: TestResult::Fail,
            details: "❌  Fail - HTTP 200 Expected: Connected with status 200, Actual: Refused"
                .to_string()
        },
        summary
    );
    assert_eq!(CaseReport::Summary(summary), case.report());
}

#[test]
fn a_case_passes_exactly_when_outcome_and_status_are_met() {
    for expected in [Connected, Refused, Timeout] {
        for attempt in [
            Attempt::Answered { status: None },
            Attempt::Answered { status: Some(200) },
            Attempt::Answered { status: Some(302) },
            Attempt::Failed { cause: Failure::ConnectionRefused },
            Attempt::Elapsed,
        ] {
            let (actual, actual_status) = match attempt {
                Attempt::Answered { status } => (Connected, status),
                Attempt::Failed { .. } => (Refused, None),
                Attempt::Elapsed => (Timeout, None),
            };

            let mut tcp = tcp_case("t", "localhost", 80);
            tcp.tcp.as_mut().unwrap().expected = expected;
            tcp.run(&attempt).unwrap();
            assert_eq!(expected == actual, tcp.compare_results().result == TestResult::Pass);

            for expected_status in [None, Some(200), Some(404)] {
                let mut http = http_case("h", "http://localhost", expected_status);
                http.http.as_mut().unwrap().expected = expected;
                http.run(&attempt).unwrap();
                let pass = expected == actual
                    && (expected_status.is_none() || expected_status == actual_status);
                assert_eq!(pass, http.compare_results().result == TestResult::Pass);
            }
        }
    }
}
