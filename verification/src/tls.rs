//! The TLS client configuration of an encrypted transport.
//!
//! The configuration is a value of `rustls`. The library makes it with the
//! default trust anchors and puts the ALPN identifier into it. The verifier
//! of the `AcceptAny` policy is an implementation of a `rustls` trait and is
//! installed by the caller, who asks [`crate::trust::TrustPolicy`] what it
//! answers.

use vstd::prelude::*;
use vstd::string::*;

use crate::transport::{Transport, TransportView};
use rustls::ClientConfig;

verus! {

/// The configuration of a TLS client.
#[verifier::external_type_specification]
#[verifier::external_body]
pub struct ExClientConfig(rustls::ClientConfig);

/// The ALPN identifiers that a configuration offers, in their order: its
/// field `alpn_protocols`.
pub uninterp spec fn alpn_protocols(config: ClientConfig) -> Seq<Seq<u8>>;

/// `ClientConfig::builder` of `rustls`, taken through `with_safe_defaults`,
/// `with_root_certificates` and `with_no_client_auth`, over a
/// `RootCertStore` that holds the anchors of `webpki_roots::TLS_SERVER_ROOTS`.
/// The last step makes the configuration, with an empty list of ALPN
/// identifiers.
#[verifier::external_body]
pub(crate) fn tls_config() -> (config: ClientConfig)
    ensures
        alpn_protocols(config) == Seq::<Seq<u8>>::empty(),
{
    let mut roots = rustls::RootCertStore::empty();
    roots.add_server_trust_anchors(
        webpki_roots::TLS_SERVER_ROOTS.0.iter().map(
            |ta|
                rustls::OwnedTrustAnchor::from_subject_spki_name_constraints(
                    ta.subject,
                    ta.spki,
                    ta.name_constraints,
                ),
        ),
    );
    ClientConfig::builder().with_safe_defaults().with_root_certificates(roots).with_no_client_auth()
}

/// `trust_dns_proto::quic::client_config_tls13_webpki_roots`: the same trust
/// anchors, TLS 1.3 only, as QUIC asks. It ends in the same builder step, so
/// the list of ALPN identifiers is empty.
pub assume_specification[ trust_dns_proto::quic::client_config_tls13_webpki_roots ]() -> (config:
    ClientConfig)
    ensures
        alpn_protocols(config) == Seq::<Seq<u8>>::empty(),
;

/// `Vec::push` on the field `alpn_protocols` of the configuration.
#[verifier::external_body]
pub(crate) fn push_alpn(config: &mut ClientConfig, alpn: Vec<u8>)
    ensures
        alpn_protocols(*final(config)) == alpn_protocols(*old(config)).push(alpn@),
{
    config.alpn_protocols.push(alpn);
}

/// The ALPN identifiers that the handshake of a transport offers: the bytes
/// of its identifier, or none.
pub open spec fn offered_alpn(transport: TransportView) -> Seq<Seq<u8>> {
    match transport.alpn() {
        Some(alpn) => seq![vstd::utf8::encode_utf8(alpn)],
        None => Seq::empty(),
    }
}

/// The client configuration for the handshake of a transport: none for UDP
/// and TCP, one over TLS 1.3 for QUIC, the general one for TLS and HTTPS. It
/// offers the transport's ALPN identifier and no other.
pub fn client_config(transport: &Transport) -> (config: Option<ClientConfig>)
    ensures
        config is Some <==> transport@.protocol().is_secure(),
        config matches Some(c) ==> alpn_protocols(c) == offered_alpn(transport@),
{
    let mut config = match transport {
        Transport::Udp { .. } | Transport::Tcp { .. } => {
            return None;
        },
        Transport::Tls { .. } | Transport::Https { .. } => tls_config(),
        Transport::Quic { .. } => trust_dns_proto::quic::client_config_tls13_webpki_roots(),
    };
    match transport.alpn() {
        Some(alpn) => {
            push_alpn(&mut config, alpn.as_bytes_vec());
            assert(alpn_protocols(config) =~= offered_alpn(transport@));
        },
        None => {},
    }
    Some(config)
}

} // verus!
