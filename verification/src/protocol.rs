//! The schemes that a prefix can start with.

use vstd::prelude::*;
use vstd::string::StrSliceExecFns;

verus! {

/// A set of protocols for URLs.
#[derive(Debug)]
pub enum Protocol {
    HTTP,
    HTTPS,
    FTP,
    WS,
    WSS,
    /// A protocol of the caller's own, made of a name and a default port.
    Custom(String, u16),
}

/// The lowercase form of a text, as `str::to_lowercase` of the standard
/// library gives it.
pub uninterp spec fn lowercase_of(text: Seq<char>) -> Seq<char>;

/// The built-in protocol whose name is exactly `name`, if there is one.
pub open spec fn built_in_named(name: Seq<char>) -> Option<Protocol> {
    if name == "http"@ {
        Some(Protocol::HTTP)
    } else if name == "https"@ {
        Some(Protocol::HTTPS)
    } else if name == "ftp"@ {
        Some(Protocol::FTP)
    } else if name == "ws"@ {
        Some(Protocol::WS)
    } else if name == "wss"@ {
        Some(Protocol::WSS)
    } else {
        None
    }
}

/// The built-in protocol that `text` names, whatever the case of its letters.
pub open spec fn built_in_for(text: Seq<char>) -> Option<Protocol> {
    built_in_named(lowercase_of(text))
}

/// Calls `cow_utils::CowUtils::cow_to_lowercase` on a `&str`.
///
/// Trusted, not proved: the result is the lowercase form of `text`, which is
/// a function of the characters of `text` alone. That function hands back
/// `text` itself where no character changes and `str::to_lowercase` of it
/// otherwise; nothing more is claimed of the result here.
#[verifier::external_body]
pub(crate) fn to_lowercase(text: &str) -> (lowered: String)
    ensures
        lowered@ == lowercase_of(text@),
{
    cow_utils::CowUtils::cow_to_lowercase(text).into_owned()
}

/// Whether two texts hold the same characters.
fn same_text(left: &str, right: &str) -> (same: bool)
    ensures
        same == (left@ == right@),
{
    let n: usize = left.unicode_len();
    if right.unicode_len() != n {
        return false;
    }
    let mut i: usize = 0;
    while i < n
        invariant
            n == left@.len(),
            n == right@.len(),
            i <= n,
            forall|j: int| 0 <= j < i ==> left@[j] == right@[j],
        decreases n - i,
    {
        if left.get_char(i) != right.get_char(i) {
            return false;
        }
        i += 1;
    }
    assert(left@ =~= right@);
    true
}

impl Clone for Protocol {
    fn clone(&self) -> (copy: Self)
        ensures
            copy == *self,
    {
        match self {
            Protocol::HTTP => Protocol::HTTP,
            Protocol::HTTPS => Protocol::HTTPS,
            Protocol::FTP => Protocol::FTP,
            Protocol::WS => Protocol::WS,
            Protocol::WSS => Protocol::WSS,
            Protocol::Custom(name, port) => Protocol::Custom(name.clone(), *port),
        }
    }
}

impl Protocol {
    /// The name that the protocol is written with.
    pub open spec fn name_text(&self) -> Seq<char> {
        match self {
            Protocol::HTTP => "http"@,
            Protocol::HTTPS => "https"@,
            Protocol::FTP => "ftp"@,
            Protocol::WS => "ws"@,
            Protocol::WSS => "wss"@,
            Protocol::Custom(name, _) => name@,
        }
    }

    /// The port that is meant where none is written.
    pub open spec fn default_port(&self) -> u16 {
        match self {
            Protocol::HTTP => 80,
            Protocol::HTTPS => 443,
            Protocol::FTP => 21,
            Protocol::WS => 80,
            Protocol::WSS => 443,
            Protocol::Custom(_, port) => *port,
        }
    }

    /// Whether the protocol is one of the fixed ones.
    pub open spec fn is_built_in(&self) -> bool {
        !(self is Custom)
    }

    /// Finds the built-in protocol with the given name, which has to be in
    /// lowercase already. No other name is an error: it gives `None`.
    pub fn get_default_from_lowercase(name: &str) -> (found: Option<Protocol>)
        ensures
            found == built_in_named(name@),
    {
        if same_text(name, "http") {
            Some(Protocol::HTTP)
        } else if same_text(name, "https") {
            Some(Protocol::HTTPS)
        } else if same_text(name, "ftp") {
            Some(Protocol::FTP)
        } else if same_text(name, "ws") {
            Some(Protocol::WS)
        } else if same_text(name, "wss") {
            Some(Protocol::WSS)
        } else {
            None
        }
    }

    /// Finds the built-in protocol that `s` names, whatever the case of its
    /// letters. An unknown name gives `None`.
    pub fn get_default_from_str(s: &str) -> (found: Option<Protocol>)
        ensures
            found == built_in_for(s@),
    {
        let lowered = to_lowercase(s);
        Protocol::get_default_from_lowercase(lowered.as_str())
    }

    /// The protocol's default port.
    pub fn get_default_port(&self) -> (port: u16)
        ensures
            port == self.default_port(),
    {
        match self {
            Protocol::HTTP => 80,
            Protocol::HTTPS => 443,
            Protocol::FTP => 21,
            Protocol::WS => 80,
            Protocol::WSS => 443,
            Protocol::Custom(_, port) => *port,
        }
    }

    /// The protocol's name.
    pub fn get_name(&self) -> (name: &str)
        ensures
            name@ == self.name_text(),
    {
        match self {
            Protocol::HTTP => "http",
            Protocol::HTTPS => "https",
            Protocol::FTP => "ftp",
            Protocol::WS => "ws",
            Protocol::WSS => "wss",
            Protocol::Custom(name, _) => name.as_str(),
        }
    }
}

/// Every built-in protocol is found again by its own name, so no two of them
/// share a name.
pub proof fn lemma_built_in_found_by_name(protocol: Protocol)
    requires
        protocol.is_built_in(),
    ensures
        built_in_named(protocol.name_text()) == Some(protocol),
{
    reveal_strlit("http");
    reveal_strlit("https");
    reveal_strlit("ftp");
    reveal_strlit("ws");
    reveal_strlit("wss");
    assert("http"@.len() == 4 && "https"@.len() == 5 && "ftp"@.len() == 3);
    assert("ws"@.len() == 2 && "wss"@.len() == 3);
    assert("ftp"@[0] == 'f' && "wss"@[0] == 'w');
}

/// What a lookup finds is a built-in protocol that is written with the
/// lowercase form of the name looked up.
pub proof fn lemma_found_has_lowercase_name(text: Seq<char>)
    ensures
        match built_in_for(text) {
            Some(protocol) => protocol.is_built_in() && protocol.name_text() == lowercase_of(text),
            None => true,
        },
{
}

/// Lookup by name does not depend on the case of the letters: two names with
/// the same lowercase form find the same protocol, or both none.
pub proof fn lemma_lookup_ignores_case(left: Seq<char>, right: Seq<char>)
    requires
        lowercase_of(left) == lowercase_of(right),
    ensures
        built_in_for(left) == built_in_for(right),
{
}

} // verus!
