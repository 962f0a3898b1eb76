//! The TCP prober: what it is asked to connect to, and for how long.

use crate::probe::{ProbeRequest, ProbeRequestView};
use crate::text::{decimal, push_decimal};
use vstd::prelude::*;
use vstd::string::StringExecFns;

verus! {

/// The deadline of a TCP connect where the run sets none, in seconds.
pub const DEFAULT_TIMEOUT_SECONDS: u64 = 1;

/// The address of a TCP endpoint: the host, a colon, and the port in
/// decimal.
pub open spec fn address_of(host: Seq<char>, port: u16) -> Seq<char> {
    host + ":"@ + decimal(port as nat)
}

/// Returns the address of a TCP endpoint.
pub fn address(host: &str, port: u16) -> (address: String)
    ensures
        address@ == address_of(host@, port),
{
    let mut address = String::from_str(host);
    address.append(":");
    push_decimal(&mut address, port);
    address
}

/// Asks for one TCP connect to `host` and `port` under the given deadline.
pub fn request(host: &str, port: u16, timeout_seconds: u64) -> (request: ProbeRequest)
    ensures
        request@ == (ProbeRequestView::Tcp { address: address_of(host@, port), timeout_seconds }),
{
    ProbeRequest::Tcp { address: address(host, port), timeout_seconds }
}

} // verus!
