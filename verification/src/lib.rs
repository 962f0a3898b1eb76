//! Connectivity verification: classify what a TCP connect or an HTTP request
//! was seen to do, hold it against what a test case expects, and report.
//!
//! The library makes no network attempt itself. For each test case it says
//! what is to be attempted ([`probe::ProbeRequest`]), takes what was seen
//! ([`probe::Attempt`]), attaches the classified outcome to the test case,
//! and reports on the run in configuration order.

pub mod config;
pub mod http_probe;
pub mod outcome;
pub mod probe;
pub mod tcp_probe;
pub mod test_case;
pub mod text;
