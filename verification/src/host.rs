//! Prefixes for hosts that were validated elsewhere.
//!
//! The types here hold what a validator has found: the host's text and the
//! port that came with it. Nothing in this module checks that text again.

use vstd::prelude::*;
use vstd::string::StringExecFns;
use crate::prefix::{create_prefix, path_chars, prefix_text};
use crate::protocol::Protocol;

verus! {

/// A validated domain name and the port that was written behind it.
#[derive(Debug)]
pub struct ValidatedDomain {
    pub name: String,
    pub port: Option<u16>,
}

/// A validated IPv4 address and the port that was written behind it.
#[derive(Debug)]
pub struct ValidatedIPv4 {
    pub address: String,
    pub port: Option<u16>,
}

/// A validated IPv6 address, without brackets, and the port that was written
/// behind it.
#[derive(Debug)]
pub struct ValidatedIPv6 {
    pub address: String,
    pub port: Option<u16>,
}

/// A validated host of any of the three kinds.
#[derive(Debug)]
pub enum ValidatedHost {
    Domain(ValidatedDomain),
    IPv4(ValidatedIPv4),
    IPv6(ValidatedIPv6),
}

impl Clone for ValidatedDomain {
    fn clone(&self) -> (copy: Self)
        ensures
            copy == *self,
    {
        ValidatedDomain { name: self.name.clone(), port: self.port }
    }
}

impl Clone for ValidatedIPv4 {
    fn clone(&self) -> (copy: Self)
        ensures
            copy == *self,
    {
        ValidatedIPv4 { address: self.address.clone(), port: self.port }
    }
}

impl Clone for ValidatedIPv6 {
    fn clone(&self) -> (copy: Self)
        ensures
            copy == *self,
    {
        ValidatedIPv6 { address: self.address.clone(), port: self.port }
    }
}

impl Clone for ValidatedHost {
    fn clone(&self) -> (copy: Self)
        ensures
            copy == *self,
    {
        match self {
            ValidatedHost::Domain(domain) => ValidatedHost::Domain(domain.clone()),
            ValidatedHost::IPv4(ipv4) => ValidatedHost::IPv4(ipv4.clone()),
            ValidatedHost::IPv6(ipv6) => ValidatedHost::IPv6(ipv6.clone()),
        }
    }
}

/// An IPv6 address as a URL holds it: between square brackets.
pub open spec fn bracketed(address: Seq<char>) -> Seq<char> {
    seq!['['] + address + seq![']']
}

impl ValidatedHost {
    /// The host as a URL holds it: a domain or an IPv4 address as it is, an
    /// IPv6 address between square brackets.
    pub open spec fn host_text(&self) -> Seq<char> {
        match self {
            ValidatedHost::Domain(domain) => domain.name@,
            ValidatedHost::IPv4(ipv4) => ipv4.address@,
            ValidatedHost::IPv6(ipv6) => bracketed(ipv6.address@),
        }
    }

    /// The port that came with the host.
    pub open spec fn port(&self) -> Option<u16> {
        match self {
            ValidatedHost::Domain(domain) => domain.port,
            ValidatedHost::IPv4(ipv4) => ipv4.port,
            ValidatedHost::IPv6(ipv6) => ipv6.port,
        }
    }
}

/// Create a URL prefix string for a validated domain and its port.
pub fn create_prefix_with_validated_domain(
    protocol: Protocol,
    domain: &ValidatedDomain,
    path: Option<&str>,
) -> (prefix: String)
    ensures
        prefix@ == prefix_text(protocol, domain.name@, domain.port, path_chars(path)),
{
    create_prefix(protocol, domain.name.as_str(), domain.port, path)
}

/// Create a URL prefix string for a validated IPv4 address and its port.
pub fn create_prefix_with_validated_ipv4(
    protocol: Protocol,
    ipv4: &ValidatedIPv4,
    path: Option<&str>,
) -> (prefix: String)
    ensures
        prefix@ == prefix_text(protocol, ipv4.address@, ipv4.port, path_chars(path)),
{
    create_prefix(protocol, ipv4.address.as_str(), ipv4.port, path)
}

/// Create a URL prefix string for a validated IPv6 address, which is put
/// between square brackets, and its port.
pub fn create_prefix_with_validated_ipv6(
    protocol: Protocol,
    ipv6: &ValidatedIPv6,
    path: Option<&str>,
) -> (prefix: String)
    ensures
        prefix@ == prefix_text(protocol, bracketed(ipv6.address@), ipv6.port, path_chars(path)),
{
    proof {
        reveal_strlit("[");
        reveal_strlit("]");
    }
    let mut host = String::from_str("[");
    host.append(ipv6.address.as_str());
    host.append("]");
    assert(host@ =~= bracketed(ipv6.address@));
    create_prefix(protocol, host.as_str(), ipv6.port, path)
}

/// Create a URL prefix string for a validated host of any kind.
pub fn create_prefix_with_validated_host(
    protocol: Protocol,
    host: &ValidatedHost,
    path: Option<&str>,
) -> (prefix: String)
    ensures
        prefix@ == prefix_text(protocol, host.host_text(), host.port(), path_chars(path)),
{
    match host {
        ValidatedHost::Domain(domain) => create_prefix_with_validated_domain(protocol, domain, path),
        ValidatedHost::IPv4(ipv4) => create_prefix_with_validated_ipv4(protocol, ipv4, path),
        ValidatedHost::IPv6(ipv6) => create_prefix_with_validated_ipv6(protocol, ipv6, path),
    }
}

} // verus!
