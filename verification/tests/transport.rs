use dns_dispatch::{
    client_config, plan_transport, ConfigError, Endpoint, Protocol, Transport, TrustPolicy,
};

fn endpoint(protocol: Protocol, name: Option<&str>, alpn: Option<&str>) -> Endpoint {
    Endpoint::new(
        protocol,
        "127.0.0.1:53".to_string(),
        name.map(str::to_string),
        alpn.map(str::to_string),
    )
}

fn plan(
    protocol: Protocol,
    name: Option<&str>,
    alpn: Option<&str>,
) -> Result<Transport, ConfigError> {
    plan_transport(protocol, endpoint(protocol, name, alpn), TrustPolicy::VerifyDefaultRoots)
}

#[test]
fn udp_needs_nothing_but_the_address() {
    let transport = plan(Protocol::Udp, None, None).unwrap();
    assert!(matches!(transport, Transport::Udp { .. }));
    assert_eq!(transport.protocol(), Protocol::Udp);
    assert_eq!(transport.nameserver(), "127.0.0.1:53");
    assert_eq!(transport.tls_dns_name(), None);
    assert_eq!(transport.alpn(), None);
    assert_eq!(transport.trust(), None);
    assert_eq!(transport.description(), "; using udp:127.0.0.1:53");
}

#[test]
fn tcp_needs_nothing_but_the_address() {
    let transport = plan(Protocol::Tcp, None, None).unwrap();
    assert!(matches!(transport, Transport::Tcp { .. }));
    assert_eq!(transport.description(), "; using tcp:127.0.0.1:53");
}

#[test]
fn plain_transports_ignore_name_and_alpn() {
    let transport = plan(Protocol::Udp, Some("dns.example"), Some("h2")).unwrap();
    assert_eq!(transport.tls_dns_name(), None);
    assert_eq!(transport.alpn(), None);
    assert_eq!(transport.description(), "; using udp:127.0.0.1:53");
}

#[test]
fn tls_without_server_name_is_a_configuration_error() {
    assert_eq!(plan(Protocol::Tls, None, None).unwrap_err(), ConfigError::MissingTlsName);
}

#[test]
fn every_secure_protocol_needs_a_server_name() {
    for protocol in [Protocol::Tls, Protocol::Https, Protocol::Quic] {
        assert_eq!(plan(protocol, None, None).unwrap_err(), ConfigError::MissingTlsName);
        assert_eq!(plan(protocol, None, Some("x")).unwrap_err(), ConfigError::MissingTlsName);
    }
}

#[test]
fn an_empty_server_name_counts_as_none() {
    for protocol in [Protocol::Tls, Protocol::Https, Protocol::Quic] {
        assert_eq!(plan(protocol, Some(""), None).unwrap_err(), ConfigError::MissingTlsName);
    }
}

#[test]
fn tls_offers_no_alpn_unless_one_is_supplied() {
    let transport = plan(Protocol::Tls, Some("dns.example"), None).unwrap();
    assert_eq!(transport.alpn(), None);
    assert_eq!(transport.tls_dns_name(), Some("dns.example"));
    assert_eq!(transport.trust(), Some(TrustPolicy::VerifyDefaultRoots));
    assert_eq!(transport.description(), "; using tls:127.0.0.1:53 dns_name:dns.example");

    let transport = plan(Protocol::Tls, Some("dns.example"), Some("dot")).unwrap();
    assert_eq!(transport.alpn(), Some("dot"));
}

#[test]
fn https_defaults_to_http2() {
    let e = endpoint(Protocol::Https, Some("dns.example"), None);
    assert_eq!(e.alpn.as_deref(), Some("h2"));
    let transport = plan(Protocol::Https, Some("dns.example"), None).unwrap();
    assert!(matches!(transport, Transport::Https { .. }));
    assert_eq!(transport.alpn(), Some("h2"));
    assert_eq!(transport.description(), "; using https:127.0.0.1:53 dns_name:dns.example");
    let config = client_config(&transport).unwrap();
    assert_eq!(config.alpn_protocols, vec![b"h2".to_vec()]);
}

#[test]
fn quic_defaults_to_dns_over_quic() {
    let transport = plan(Protocol::Quic, Some("dns.example"), None).unwrap();
    assert!(matches!(transport, Transport::Quic { .. }));
    assert_eq!(transport.alpn(), Some("doq"));
    assert_eq!(transport.description(), "; using quic:127.0.0.1:53 dns_name:dns.example");
    let config = client_config(&transport).unwrap();
    assert_eq!(config.alpn_protocols, vec![b"doq".to_vec()]);
}

#[test]
fn a_supplied_alpn_replaces_the_default() {
    let transport = plan(Protocol::Https, Some("dns.example"), Some("http/1.1")).unwrap();
    assert_eq!(transport.alpn(), Some("http/1.1"));
    let config = client_config(&transport).unwrap();
    assert_eq!(config.alpn_protocols, vec![b"http/1.1".to_vec()]);

    let transport = plan(Protocol::Quic, Some("dns.example"), Some("dq")).unwrap();
    assert_eq!(transport.alpn(), Some("dq"));
}

#[test]
fn the_defaults_per_protocol() {
    assert_eq!(Protocol::Udp.default_alpn(), None);
    assert_eq!(Protocol::Tcp.default_alpn(), None);
    assert_eq!(Protocol::Tls.default_alpn(), None);
    assert_eq!(Protocol::Https.default_alpn().as_deref(), Some("h2"));
    assert_eq!(Protocol::Quic.default_alpn().as_deref(), Some("doq"));
    assert!(!Protocol::Udp.needs_tls_name());
    assert!(!Protocol::Tcp.needs_tls_name());
    assert!(Protocol::Tls.needs_tls_name());
    assert!(Protocol::Https.needs_tls_name());
    assert!(Protocol::Quic.needs_tls_name());
    assert!(!Protocol::Tls.needs_alpn());
    assert!(Protocol::Https.needs_alpn());
    assert!(Protocol::Quic.needs_alpn());
    assert_eq!(Protocol::Https.tag(), "https");
}

#[test]
fn an_endpoint_without_alpn_cannot_carry_https_or_quic() {
    for protocol in [Protocol::Https, Protocol::Quic] {
        let bare = Endpoint {
            nameserver: "127.0.0.1:53".to_string(),
            tls_dns_name: Some("dns.example".to_string()),
            alpn: None,
        };
        assert!(!bare.is_valid_for(protocol));
        assert_eq!(
            plan_transport(protocol, bare, TrustPolicy::VerifyDefaultRoots).unwrap_err(),
            ConfigError::MissingAlpn
        );
    }
}

#[test]
fn alpn_is_looked_for_before_the_server_name() {
    let bare = Endpoint { nameserver: "[::1]:853".to_string(), tls_dns_name: None, alpn: None };
    assert_eq!(
        plan_transport(Protocol::Quic, bare, TrustPolicy::AcceptAny).unwrap_err(),
        ConfigError::MissingAlpn
    );
}

#[test]
fn validity_of_an_endpoint() {
    let e = endpoint(Protocol::Tls, Some("dns.example"), None);
    assert!(e.is_valid_for(Protocol::Tls));
    assert!(e.is_valid_for(Protocol::Udp));
    assert!(!e.is_valid_for(Protocol::Https));
    let e = endpoint(Protocol::Https, None, None);
    assert!(!e.is_valid_for(Protocol::Https));
    assert!(e.is_valid_for(Protocol::Tcp));
}

#[test]
fn the_trust_policy_travels_with_the_transport() {
    let transport = plan_transport(
        Protocol::Tls,
        endpoint(Protocol::Tls, Some("dns.example"), None),
        TrustPolicy::AcceptAny,
    )
    .unwrap();
    assert_eq!(transport.trust(), Some(TrustPolicy::AcceptAny));
}

#[test]
fn plain_transports_have_no_tls_configuration() {
    assert!(client_config(&plan(Protocol::Udp, None, None).unwrap()).is_none());
    assert!(client_config(&plan(Protocol::Tcp, None, None).unwrap()).is_none());
}

#[test]
fn tls_configuration_offers_nothing_by_default() {
    let transport = plan(Protocol::Tls, Some("dns.example"), None).unwrap();
    let config = client_config(&transport).unwrap();
    assert!(config.alpn_protocols.is_empty());
}

#[test]
fn what_the_user_is_told_of_a_configuration_error() {
    assert_eq!(
        ConfigError::MissingTlsName.message(Protocol::Tls),
        "tls_dns_name is required tls connections"
    );
    assert_eq!(
        ConfigError::MissingTlsName.message(Protocol::Https),
        "tls_dns_name is required https connections"
    );
    assert_eq!(
        ConfigError::MissingTlsName.message(Protocol::Quic),
        "tls_dns_name is required quic connections"
    );
    assert_eq!(ConfigError::MissingAlpn.message(Protocol::Https), "ALPN is required for HTTPS");
    assert_eq!(ConfigError::MissingAlpn.message(Protocol::Quic), "ALPN is required for HTTPS");
}
