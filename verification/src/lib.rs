//! Push-notification multi-factor authentication core.
//!
//! A login request is relayed to previously paired devices as a signed
//! challenge over a realtime publish/subscribe backend; whichever device
//! answers first with a valid signature decides the outcome, within a
//! bounded time window.  A companion enrollment flow pairs new devices and
//! persists the trust relationship in a line-oriented device registry.
//!
//! This crate holds the verified core: the codec and registry schema, the
//! cryptographic contracts, the protocol state machines for both flows, the
//! race decision, and the worker-teardown discipline.  Network transport,
//! threads and host integration live outside the library and only feed it
//! plain values.
use vstd::prelude::*;
use vstd::string::*;

pub mod codec;
pub mod config;
pub mod crypto;
pub mod protocol;
pub mod strings;
pub mod transport;
pub mod worker;

verus! {

/// One-line usage banner for the enrollment command.
pub fn usage(program: &str) -> (r: String)
    ensures
        r@ == "Usage: "@ + program@ + " <baseurl> <keyfile> <username> <device-name>"@,
{
    let mut s = String::from_str("Usage: ");
    s.append(program);
    s.append(" <baseurl> <keyfile> <username> <device-name>");
    s
}

} // verus!
