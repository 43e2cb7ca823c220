//! Building the prefix, and the laws that it obeys.

use vstd::prelude::*;
use vstd::string::StringExecFns;
use crate::decimal::{decimal_text, is_digit, lemma_decimal_text_is_digits, port_digits};
use crate::protocol::Protocol;
use crate::slash::{concat_with_slash, join_with_slash, without_start_slash};

verus! {

/// The protocol's name, `://` and the host, which is taken as it is.
pub open spec fn origin_text(protocol: Protocol, host: Seq<char>) -> Seq<char> {
    protocol.name_text() + seq![':', '/', '/'] + host
}

/// A colon and the port in decimal.
pub open spec fn port_pattern(port: u16) -> Seq<char> {
    seq![':'] + decimal_text(port as nat)
}

/// What is written for the port: nothing where none is given or where it is
/// the protocol's default, and else a colon and the port in decimal.
pub open spec fn port_text(protocol: Protocol, port: Option<u16>) -> Seq<char> {
    match port {
        Some(p) => if p != protocol.default_port() {
            port_pattern(p)
        } else {
            Seq::empty()
        },
        None => Seq::empty(),
    }
}

/// The prefix made of a protocol, a host, an optional port and an optional
/// path: the origin, the port where it is not the default, and the path
/// joined to these by a slash.
pub open spec fn prefix_text(
    protocol: Protocol,
    host: Seq<char>,
    port: Option<u16>,
    path: Option<Seq<char>>,
) -> Seq<char> {
    let base = origin_text(protocol, host) + port_text(protocol, port);
    match path {
        Some(p) => join_with_slash(base, p),
        None => base,
    }
}

/// The characters of an optional path.
pub open spec fn path_chars(path: Option<&str>) -> Option<Seq<char>> {
    match path {
        Some(p) => Some(p@),
        None => None,
    }
}

/// What a path adds behind a text that does not end with a slash: a slash and
/// the path without its opening slash, the whole without a closing slash.
pub open spec fn path_suffix(path: Option<Seq<char>>) -> Seq<char> {
    match path {
        Some(p) => {
            let added = seq!['/'] + without_start_slash(p);
            if added.last() == '/' {
                added.drop_last()
            } else {
                added
            }
        },
        None => Seq::empty(),
    }
}

/// Whether `pattern` stands in `text` at index `at`.
pub open spec fn occurs_at(text: Seq<char>, pattern: Seq<char>, at: int) -> bool {
    &&& 0 <= at
    &&& at + pattern.len() <= text.len()
    &&& forall|k: int| 0 <= k < pattern.len() ==> #[trigger] text[at + k] == pattern[k]
}

/// Create a URL prefix string.
///
/// The host is written as it is given: nothing of it is checked, an empty one
/// and one that holds a port of its own included. The port is written only
/// where it is not the protocol's default. The path is joined by one slash:
/// one slash at its start is not written again, and one slash at the end of
/// the whole is cut off.
pub fn create_prefix(
    protocol: Protocol,
    domain: &str,
    port: Option<u16>,
    path: Option<&str>,
) -> (prefix: String)
    ensures
        prefix@ == prefix_text(protocol, domain@, port, path_chars(path)),
{
    let mut prefix = String::from_str(protocol.get_name());
    proof {
        reveal_strlit("://");
        reveal_strlit(":");
    }
    prefix.append("://");
    prefix.append(domain);
    if let Some(p) = port {
        if p != protocol.get_default_port() {
            let digits = port_digits(p);
            prefix.append(":");
            prefix.append(digits.as_str());
        }
    }
    assert(prefix@ =~= origin_text(protocol, domain@) + port_text(protocol, port));
    if let Some(p) = path {
        concat_with_slash(&mut prefix, p);
    }
    prefix
}

/// The default port is never written: with the protocol's own default port
/// the prefix is the one that is made without a port.
pub proof fn lemma_default_port_elided(
    protocol: Protocol,
    host: Seq<char>,
    path: Option<Seq<char>>,
)
    ensures
        prefix_text(protocol, host, Some(protocol.default_port()), path) == prefix_text(
            protocol,
            host,
            None,
            path,
        ),
{
}

/// A port that is not the default is written right behind the host: the
/// prefix is the origin, then a colon and the port in decimal, then what the
/// path adds.
pub proof fn lemma_port_follows_host(
    protocol: Protocol,
    host: Seq<char>,
    port: u16,
    path: Option<Seq<char>>,
)
    requires
        port != protocol.default_port(),
    ensures
        prefix_text(protocol, host, Some(port), path) == origin_text(protocol, host) + port_pattern(
            port,
        ) + path_suffix(path),
        occurs_at(
            prefix_text(protocol, host, Some(port), path),
            port_pattern(port),
            origin_text(protocol, host).len() as int,
        ),
{
    // The port's text ends with a digit, so the path always gets a slash
    // of its own in front.
    lemma_decimal_text_is_digits(port as nat);
}

/// A port that is not the default is written once and nowhere else: where
/// neither the origin nor what the path adds holds a colon followed by the
/// port's digits, that text stands in the prefix right behind the host and
/// at no other place.
pub proof fn lemma_port_written_once(
    protocol: Protocol,
    host: Seq<char>,
    port: u16,
    path: Option<Seq<char>>,
)
    requires
        port != protocol.default_port(),
        forall|at: int| !occurs_at(origin_text(protocol, host), port_pattern(port), at),
        forall|at: int| !occurs_at(path_suffix(path), port_pattern(port), at),
    ensures
        forall|at: int|
            occurs_at(prefix_text(protocol, host, Some(port), path), port_pattern(port), at) <==> at
                == origin_text(protocol, host).len(),
{
    let origin = origin_text(protocol, host);
    let pattern = port_pattern(port);
    let suffix = path_suffix(path);
    let text = prefix_text(protocol, host, Some(port), path);
    lemma_port_follows_host(protocol, host, port, path);
    lemma_decimal_text_is_digits(port as nat);
    // The pattern starts with a colon and goes on with digits, so no place
    // where it stands can overlap the one behind the host.
    assert forall|k: int| 1 <= k < pattern.len() implies is_digit(#[trigger] pattern[k]) by {
        assert(pattern[k] == decimal_text(port as nat)[k - 1]);
    }
    assert forall|at: int| occurs_at(text, pattern, at) implies at == origin.len() by {
        if at + pattern.len() <= origin.len() {
            assert forall|k: int| 0 <= k < pattern.len() implies #[trigger] origin[at + k]
                == pattern[k] by {
                assert(text[at + k] == pattern[k]);
            }
            assert(occurs_at(origin, pattern, at));
        } else if at < origin.len() {
            // The colon behind the host would have to be one of the digits.
            assert(text[at + (origin.len() - at)] == pattern[0]);
        } else if origin.len() < at < origin.len() + pattern.len() {
            // One of the digits behind the host would have to be the colon.
            assert(text[at + 0] == pattern[0]);
        } else if at >= origin.len() + pattern.len() {
            let shifted = at - origin.len() - pattern.len();
            assert forall|k: int| 0 <= k < pattern.len() implies #[trigger] suffix[shifted + k]
                == pattern[k] by {
                assert(text[at + k] == pattern[k]);
            }
            assert(occurs_at(suffix, pattern, shifted));
        }
    }
}

/// A slash in front of the path changes nothing: a path and the same path
/// behind one more slash give the same prefix. This holds for a path that is
/// not empty and that is the slash alone or starts with another character.
pub proof fn lemma_leading_slash_ignored(
    protocol: Protocol,
    host: Seq<char>,
    port: Option<u16>,
    path: Seq<char>,
)
    requires
        path.len() > 0,
        path[0] != '/' || path.len() == 1,
    ensures
        prefix_text(protocol, host, port, Some(path)) == prefix_text(
            protocol,
            host,
            port,
            Some(seq!['/'] + path),
        ),
{
}

} // verus!
