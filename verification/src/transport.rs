//! From protocol, endpoint and trust policy to the transport to build.

use vstd::prelude::*;
use vstd::string::*;

use crate::protocol::{text_of, Protocol};
use crate::trust::TrustPolicy;

verus! {

/// Why no transport can be built for a configuration. Found before any
/// network activity.
#[derive(Clone, Copy, Debug, PartialEq, Eq, Structural)]
pub enum ConfigError {
    /// An encrypted transport was chosen without the name that the server's
    /// certificate is to be matched against.
    MissingTlsName,
    /// HTTPS or QUIC was chosen and no ALPN identifier is at hand.
    MissingAlpn,
}

impl ConfigError {
    /// What the user is told of the error, for the protocol that was chosen.
    pub open spec fn message_text(self, protocol: Protocol) -> Seq<char> {
        match self {
            ConfigError::MissingTlsName => "tls_dns_name is required "@ + protocol.tag_text()
                + " connections"@,
            ConfigError::MissingAlpn => "ALPN is required for HTTPS"@,
        }
    }

    pub fn message(self, protocol: Protocol) -> (text: String)
        ensures
            text@ == self.message_text(protocol),
    {
        match self {
            ConfigError::MissingTlsName => {
                let mut text = String::from_str("tls_dns_name is required ");
                text.append(protocol.tag().as_str());
                text.append(" connections");
                text
            },
            ConfigError::MissingAlpn => String::from_str("ALPN is required for HTTPS"),
        }
    }
}

/// Where the nameserver is reached, and the two values that only a TLS or
/// QUIC handshake uses.
#[derive(Debug)]
pub struct Endpoint {
    /// The nameserver's socket address in its textual form.
    pub nameserver: String,
    /// The name in the certificate that the server presents.
    pub tls_dns_name: Option<String>,
    /// The ALPN identifier offered in the handshake.
    pub alpn: Option<String>,
}

/// An endpoint as the characters of its three values.
pub struct EndpointView {
    pub nameserver: Seq<char>,
    pub tls_dns_name: Option<Seq<char>>,
    pub alpn: Option<Seq<char>>,
}

impl View for Endpoint {
    type V = EndpointView;

    open spec fn view(&self) -> EndpointView {
        EndpointView {
            nameserver: self.nameserver@,
            tls_dns_name: text_of(self.tls_dns_name),
            alpn: text_of(self.alpn),
        }
    }
}

/// The ALPN identifier in force: the one supplied, else the protocol's own.
pub open spec fn resolved_alpn_text(protocol: Protocol, supplied: Option<Seq<char>>) -> Option<
    Seq<char>,
> {
    match supplied {
        Some(alpn) => Some(alpn),
        None => protocol.default_alpn_text(),
    }
}

impl EndpointView {
    /// A TLS server name is present and not empty.
    pub open spec fn has_tls_name(self) -> bool {
        self.tls_dns_name matches Some(name) && name.len() > 0
    }

    /// The endpoint holds what a connection over `protocol` needs.
    pub open spec fn valid_for(self, protocol: Protocol) -> bool {
        &&& protocol.is_secure() ==> self.has_tls_name()
        &&& protocol.requires_alpn() ==> self.alpn is Some
    }
}

impl Endpoint {
    /// The endpoint for a run over `protocol`. Where no ALPN identifier is
    /// supplied, the protocol's default is filled in here, before anything
    /// is built from the endpoint.
    pub fn new(
        protocol: Protocol,
        nameserver: String,
        tls_dns_name: Option<String>,
        alpn: Option<String>,
    ) -> (endpoint: Endpoint)
        ensures
            endpoint@ == (EndpointView {
                nameserver: nameserver@,
                tls_dns_name: text_of(tls_dns_name),
                alpn: resolved_alpn_text(protocol, text_of(alpn)),
            }),
    {
        let alpn = match alpn {
            Some(alpn) => Some(alpn),
            None => protocol.default_alpn(),
        };
        Endpoint { nameserver, tls_dns_name, alpn }
    }

    pub fn is_valid_for(&self, protocol: Protocol) -> (b: bool)
        ensures
            b == self@.valid_for(protocol),
    {
        let named = match &self.tls_dns_name {
            Some(name) => !name.as_str().is_empty(),
            None => false,
        };
        (!protocol.needs_tls_name() || named) && (!protocol.needs_alpn() || self.alpn.is_some())
    }
}

/// A transport that can be built as it stands: each variant holds exactly
/// what its connection takes.
#[derive(Debug)]
#[allow(inconsistent_fields)]
pub enum Transport {
    /// A datagram socket; no handshake.
    Udp { nameserver: String },
    /// A stream socket; no handshake.
    Tcp { nameserver: String },
    /// A stream socket under TLS. No ALPN identifier is offered unless one
    /// was supplied.
    Tls { nameserver: String, dns_name: String, alpn: Option<String>, trust: TrustPolicy },
    /// TLS that carries HTTP requests and responses.
    Https { nameserver: String, dns_name: String, alpn: String, trust: TrustPolicy },
    /// A QUIC connection, encrypted by itself.
    Quic { nameserver: String, dns_name: String, alpn: String, trust: TrustPolicy },
}

/// A transport as the characters of its values.
#[allow(inconsistent_fields)]
pub enum TransportView {
    Udp { nameserver: Seq<char> },
    Tcp { nameserver: Seq<char> },
    Tls { nameserver: Seq<char>, dns_name: Seq<char>, alpn: Option<Seq<char>>, trust: TrustPolicy },
    Https { nameserver: Seq<char>, dns_name: Seq<char>, alpn: Seq<char>, trust: TrustPolicy },
    Quic { nameserver: Seq<char>, dns_name: Seq<char>, alpn: Seq<char>, trust: TrustPolicy },
}

impl View for Transport {
    type V = TransportView;

    open spec fn view(&self) -> TransportView {
        match *self {
            Transport::Udp { nameserver } => TransportView::Udp { nameserver: nameserver@ },
            Transport::Tcp { nameserver } => TransportView::Tcp { nameserver: nameserver@ },
            Transport::Tls { nameserver, dns_name, alpn, trust } => TransportView::Tls {
                nameserver: nameserver@,
                dns_name: dns_name@,
                alpn: text_of(alpn),
                trust,
            },
            Transport::Https { nameserver, dns_name, alpn, trust } => TransportView::Https {
                nameserver: nameserver@,
                dns_name: dns_name@,
                alpn: alpn@,
                trust,
            },
            Transport::Quic { nameserver, dns_name, alpn, trust } => TransportView::Quic {
                nameserver: nameserver@,
                dns_name: dns_name@,
                alpn: alpn@,
                trust,
            },
        }
    }
}

/// The transport that protocol, endpoint and trust policy determine, or the
/// reason why there is none. For HTTPS and QUIC the ALPN identifier is looked
/// for first, the TLS server name second.
pub open spec fn transport_for(
    protocol: Protocol,
    endpoint: EndpointView,
    trust: TrustPolicy,
) -> Result<TransportView, ConfigError> {
    match protocol {
        Protocol::Udp => Ok(TransportView::Udp { nameserver: endpoint.nameserver }),
        Protocol::Tcp => Ok(TransportView::Tcp { nameserver: endpoint.nameserver }),
        Protocol::Tls => if endpoint.has_tls_name() {
            Ok(
                TransportView::Tls {
                    nameserver: endpoint.nameserver,
                    dns_name: endpoint.tls_dns_name->0,
                    alpn: endpoint.alpn,
                    trust,
                },
            )
        } else {
            Err(ConfigError::MissingTlsName)
        },
        Protocol::Https => if endpoint.alpn is None {
            Err(ConfigError::MissingAlpn)
        } else if !endpoint.has_tls_name() {
            Err(ConfigError::MissingTlsName)
        } else {
            Ok(
                TransportView::Https {
                    nameserver: endpoint.nameserver,
                    dns_name: endpoint.tls_dns_name->0,
                    alpn: endpoint.alpn->0,
                    trust,
                },
            )
        },
        Protocol::Quic => if endpoint.alpn is None {
            Err(ConfigError::MissingAlpn)
        } else if !endpoint.has_tls_name() {
            Err(ConfigError::MissingTlsName)
        } else {
            Ok(
                TransportView::Quic {
                    nameserver: endpoint.nameserver,
                    dns_name: endpoint.tls_dns_name->0,
                    alpn: endpoint.alpn->0,
                    trust,
                },
            )
        },
    }
}

/// The outcome of planning as the characters of its values.
pub open spec fn planned(r: Result<Transport, ConfigError>) -> Result<TransportView, ConfigError> {
    match r {
        Ok(transport) => Ok(transport@),
        Err(e) => Err(e),
    }
}

/// The TLS server name, where it is present and not empty.
fn present_tls_name(name: Option<String>) -> (r: Result<String, ConfigError>)
    ensures
        r is Ok <==> (text_of(name) matches Some(n) && n.len() > 0),
        r matches Ok(n) ==> text_of(name) == Some(n@),
        r matches Err(e) ==> e == ConfigError::MissingTlsName,
{
    match name {
        Some(name) => {
            if name.as_str().is_empty() {
                Err(ConfigError::MissingTlsName)
            } else {
                Ok(name)
            }
        },
        None => Err(ConfigError::MissingTlsName),
    }
}

/// Decides which transport to build. An encrypted protocol without a TLS
/// server name, and HTTPS or QUIC without an ALPN identifier, are refused
/// here, before a socket is opened.
pub fn plan_transport(protocol: Protocol, endpoint: Endpoint, trust: TrustPolicy) -> (r: Result<
    Transport,
    ConfigError,
>)
    ensures
        planned(r) == transport_for(protocol, endpoint@, trust),
        r is Ok <==> endpoint@.valid_for(protocol),
        r matches Ok(transport) ==> transport@.well_formed(),
{
    let Endpoint { nameserver, tls_dns_name, alpn } = endpoint;
    match protocol {
        Protocol::Udp => Ok(Transport::Udp { nameserver }),
        Protocol::Tcp => Ok(Transport::Tcp { nameserver }),
        Protocol::Tls => {
            match present_tls_name(tls_dns_name) {
                Ok(dns_name) => Ok(Transport::Tls { nameserver, dns_name, alpn, trust }),
                Err(e) => Err(e),
            }
        },
        Protocol::Https => {
            match alpn {
                None => Err(ConfigError::MissingAlpn),
                Some(alpn) => match present_tls_name(tls_dns_name) {
                    Ok(dns_name) => Ok(Transport::Https { nameserver, dns_name, alpn, trust }),
                    Err(e) => Err(e),
                },
            }
        },
        Protocol::Quic => {
            match alpn {
                None => Err(ConfigError::MissingAlpn),
                Some(alpn) => match present_tls_name(tls_dns_name) {
                    Ok(dns_name) => Ok(Transport::Quic { nameserver, dns_name, alpn, trust }),
                    Err(e) => Err(e),
                },
            }
        },
    }
}

impl TransportView {
    /// An encrypted transport has a TLS server name that is not empty.
    pub open spec fn well_formed(self) -> bool {
        self.dns_name() matches Some(dns_name) ==> dns_name.len() > 0
    }

    pub open spec fn protocol(self) -> Protocol {
        match self {
            TransportView::Udp { .. } => Protocol::Udp,
            TransportView::Tcp { .. } => Protocol::Tcp,
            TransportView::Tls { .. } => Protocol::Tls,
            TransportView::Https { .. } => Protocol::Https,
            TransportView::Quic { .. } => Protocol::Quic,
        }
    }

    pub open spec fn nameserver(self) -> Seq<char> {
        match self {
            TransportView::Udp { nameserver } => nameserver,
            TransportView::Tcp { nameserver } => nameserver,
            TransportView::Tls { nameserver, .. } => nameserver,
            TransportView::Https { nameserver, .. } => nameserver,
            TransportView::Quic { nameserver, .. } => nameserver,
        }
    }

    /// The TLS server name of an encrypted transport.
    pub open spec fn dns_name(self) -> Option<Seq<char>> {
        match self {
            TransportView::Udp { .. } => None,
            TransportView::Tcp { .. } => None,
            TransportView::Tls { dns_name, .. } => Some(dns_name),
            TransportView::Https { dns_name, .. } => Some(dns_name),
            TransportView::Quic { dns_name, .. } => Some(dns_name),
        }
    }

    /// The ALPN identifier that the handshake offers, if any.
    pub open spec fn alpn(self) -> Option<Seq<char>> {
        match self {
            TransportView::Udp { .. } => None,
            TransportView::Tcp { .. } => None,
            TransportView::Tls { alpn, .. } => alpn,
            TransportView::Https { alpn, .. } => Some(alpn),
            TransportView::Quic { alpn, .. } => Some(alpn),
        }
    }

    /// The trust policy of the handshake, where there is one.
    pub open spec fn trust(self) -> Option<TrustPolicy> {
        match self {
            TransportView::Udp { .. } => None,
            TransportView::Tcp { .. } => None,
            TransportView::Tls { trust, .. } => Some(trust),
            TransportView::Https { trust, .. } => Some(trust),
            TransportView::Quic { trust, .. } => Some(trust),
        }
    }

    /// The line that tells the user which transport was chosen: the
    /// protocol's tag and the address, then the server name if there is one.
    pub open spec fn description(self) -> Seq<char> {
        let head = "; using "@ + self.protocol().tag_text() + ":"@ + self.nameserver();
        match self.dns_name() {
            Some(dns_name) => head + " dns_name:"@ + dns_name,
            None => head,
        }
    }
}

impl Transport {
    pub fn description(&self) -> (line: String)
        ensures
            line@ == self@.description(),
    {
        let mut line = String::from_str("; using ");
        line.append(self.protocol().tag().as_str());
        line.append(":");
        line.append(self.nameserver());
        match self.tls_dns_name() {
            Some(dns_name) => {
                line.append(" dns_name:");
                line.append(dns_name);
            },
            None => {},
        }
        line
    }

    pub fn protocol(&self) -> (protocol: Protocol)
        ensures
            protocol == self@.protocol(),
    {
        match self {
            Transport::Udp { .. } => Protocol::Udp,
            Transport::Tcp { .. } => Protocol::Tcp,
            Transport::Tls { .. } => Protocol::Tls,
            Transport::Https { .. } => Protocol::Https,
            Transport::Quic { .. } => Protocol::Quic,
        }
    }

    pub fn nameserver(&self) -> (nameserver: &str)
        ensures
            nameserver@ == self@.nameserver(),
    {
        match self {
            Transport::Udp { nameserver } => nameserver.as_str(),
            Transport::Tcp { nameserver } => nameserver.as_str(),
            Transport::Tls { nameserver, .. } => nameserver.as_str(),
            Transport::Https { nameserver, .. } => nameserver.as_str(),
            Transport::Quic { nameserver, .. } => nameserver.as_str(),
        }
    }

    pub fn tls_dns_name(&self) -> (dns_name: Option<&str>)
        ensures
            dns_name is Some <==> self@.dns_name() is Some,
            dns_name matches Some(n) ==> self@.dns_name() == Some(n@),
    {
        match self {
            Transport::Udp { .. } => None,
            Transport::Tcp { .. } => None,
            Transport::Tls { dns_name, .. } => Some(dns_name.as_str()),
            Transport::Https { dns_name, .. } => Some(dns_name.as_str()),
            Transport::Quic { dns_name, .. } => Some(dns_name.as_str()),
        }
    }

    pub fn alpn(&self) -> (alpn: Option<&str>)
        ensures
            alpn is Some <==> self@.alpn() is Some,
            alpn matches Some(a) ==> self@.alpn() == Some(a@),
    {
        match self {
            Transport::Udp { .. } => None,
            Transport::Tcp { .. } => None,
            Transport::Tls { alpn, .. } => match alpn {
                Some(alpn) => Some(alpn.as_str()),
                None => None,
            },
            Transport::Https { alpn, .. } => Some(alpn.as_str()),
            Transport::Quic { alpn, .. } => Some(alpn.as_str()),
        }
    }

    pub fn trust(&self) -> (trust: Option<TrustPolicy>)
        ensures
            trust == self@.trust(),
    {
        match self {
            Transport::Udp { .. } => None,
            Transport::Tcp { .. } => None,
            Transport::Tls { trust, .. } => Some(*trust),
            Transport::Https { trust, .. } => Some(*trust),
            Transport::Quic { trust, .. } => Some(*trust),
        }
    }
}

} // verus!
