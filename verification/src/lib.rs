//! URL prefix strings: a scheme, a host, a port that is left out when it is
//! the scheme's default, and a path joined by exactly one slash.
//!
//! Every executable function carries a contract over the characters of the
//! strings involved (`Seq<char>`), and the laws that relate the functions to
//! each other are proof functions beside them.

pub mod decimal;
pub mod host;
pub mod prefix;
pub mod protocol;
pub mod slash;

pub use decimal::port_digits;
pub use host::{
    create_prefix_with_validated_domain, create_prefix_with_validated_host,
    create_prefix_with_validated_ipv4, create_prefix_with_validated_ipv6, ValidatedDomain,
    ValidatedHost, ValidatedIPv4, ValidatedIPv6,
};
pub use prefix::create_prefix;
pub use protocol::Protocol;
