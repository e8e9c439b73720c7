//! The five transports and what each asks of an endpoint.

use vstd::prelude::*;
use vstd::string::*;

verus! {

/// The transport over which the exchange with the nameserver takes place.
#[derive(Clone, Copy, Debug, PartialEq, Eq, Structural)]
pub enum Protocol {
    Udp,
    Tcp,
    Tls,
    Https,
    Quic,
}

impl Protocol {
    /// Whether the transport is encrypted, and hence needs the name that the
    /// server's certificate is matched against.
    pub open spec fn is_secure(self) -> bool {
        self is Tls || self is Https || self is Quic
    }

    /// Whether a connection over this transport cannot be built without an
    /// ALPN identifier.
    pub open spec fn requires_alpn(self) -> bool {
        self is Https || self is Quic
    }

    /// The ALPN identifier that stands in where none was supplied: HTTP/2 for
    /// HTTPS, DNS-over-QUIC for QUIC, none for the others.
    pub open spec fn default_alpn_text(self) -> Option<Seq<char>> {
        match self {
            Protocol::Https => Some("h2"@),
            Protocol::Quic => Some("doq"@),
            _ => None,
        }
    }

    /// The lower-case tag by which the transport is named in output.
    pub open spec fn tag_text(self) -> Seq<char> {
        match self {
            Protocol::Udp => "udp"@,
            Protocol::Tcp => "tcp"@,
            Protocol::Tls => "tls"@,
            Protocol::Https => "https"@,
            Protocol::Quic => "quic"@,
        }
    }

    pub fn needs_tls_name(self) -> (b: bool)
        ensures
            b == self.is_secure(),
    {
        match self {
            Protocol::Udp | Protocol::Tcp => false,
            Protocol::Tls | Protocol::Https | Protocol::Quic => true,
        }
    }

    pub fn needs_alpn(self) -> (b: bool)
        ensures
            b == self.requires_alpn(),
    {
        match self {
            Protocol::Https | Protocol::Quic => true,
            Protocol::Udp | Protocol::Tcp | Protocol::Tls => false,
        }
    }

    pub fn default_alpn(self) -> (alpn: Option<String>)
        ensures
            text_of(alpn) == self.default_alpn_text(),
    {
        match self {
            Protocol::Https => Some(String::from_str("h2")),
            Protocol::Quic => Some(String::from_str("doq")),
            Protocol::Udp | Protocol::Tcp | Protocol::Tls => None,
        }
    }

    pub fn tag(self) -> (tag: String)
        ensures
            tag@ == self.tag_text(),
    {
        match self {
            Protocol::Udp => String::from_str("udp"),
            Protocol::Tcp => String::from_str("tcp"),
            Protocol::Tls => String::from_str("tls"),
            Protocol::Https => String::from_str("https"),
            Protocol::Quic => String::from_str("quic"),
        }
    }
}

/// The characters of an optional string.
pub open spec fn text_of(s: Option<String>) -> Option<Seq<char>> {
    match s {
        Some(s) => Some(s@),
        None => None,
    }
}

} // verus!
