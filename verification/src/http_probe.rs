//! The HTTP prober: what it is asked to request, for how long, and whether
//! it follows redirects.

use crate::probe::{ProbeRequest, ProbeRequestView};
use vstd::prelude::*;
use vstd::string::StringExecFns;

verus! {

/// The deadline of an HTTP request where the run sets none, in seconds.
pub const DEFAULT_TIMEOUT_SECONDS: u64 = 2;

/// Whether redirects are followed under a test's setting: they are, unless
/// the setting is `Some(false)`.
pub open spec fn follows(redirect: Option<bool>) -> bool {
    redirect != Some(false)
}

/// Returns whether redirects are followed under a test's setting.
pub fn follows_redirects(redirect: Option<bool>) -> (follow: bool)
    ensures
        follow == follows(redirect),
{
    match redirect {
        Some(follow) => follow,
        None => true,
    }
}

/// Asks for one GET request for `url` under the given deadline and
/// redirect policy.
pub fn request(url: &str, timeout_seconds: u64, follow_redirects: bool) -> (request: ProbeRequest)
    ensures
        request@ == (ProbeRequestView::Http { url: url@, timeout_seconds, follow_redirects }),
{
    ProbeRequest::Http { url: String::from_str(url), timeout_seconds, follow_redirects }
}

} // verus!
