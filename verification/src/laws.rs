//! What holds of the planning functions taken together.

use vstd::prelude::*;

use crate::protocol::Protocol;
use crate::record_set::{all_rdata_valid, lemma_extended_ok_iff_all_valid, rdata_of};
use crate::request::{request_for, CommandKind, CommandView, Request, RequestError};
use crate::rr::{new_record_set, record_set_in_class};
use crate::transport::{
    resolved_alpn_text, transport_for, ConfigError, EndpointView, TransportView,
};
use crate::trust::TrustPolicy;
use trust_dns_client::rr::{DNSClass, Name};

verus! {

/// Over TLS, HTTPS and QUIC an endpoint without a TLS server name gets no
/// transport, under either trust policy: the answer is a configuration
/// error, and it is `MissingTlsName` unless an ALPN identifier that HTTPS or
/// QUIC needs is missing as well.
pub proof fn secure_protocol_needs_server_name(
    protocol: Protocol,
    endpoint: EndpointView,
    trust: TrustPolicy,
)
    requires
        protocol.is_secure(),
        endpoint.tls_dns_name is None,
    ensures
        transport_for(protocol, endpoint, trust) is Err,
        endpoint.alpn is Some || protocol is Tls ==> transport_for(protocol, endpoint, trust)
            == Err::<TransportView, ConfigError>(ConfigError::MissingTlsName),
{
}

/// UDP and TCP ask nothing of an endpoint: they always get their transport.
pub proof fn plain_protocol_is_always_planned(
    protocol: Protocol,
    endpoint: EndpointView,
    trust: TrustPolicy,
)
    requires
        !protocol.is_secure(),
    ensures
        transport_for(protocol, endpoint, trust) is Ok,
{
}

/// An endpoint whose ALPN identifier was resolved against the protocol's
/// default never lacks one: HTTPS then offers `h2` and QUIC `doq` unless
/// another was supplied, TLS offers what was supplied or nothing, and the
/// only configuration error left is the missing server name.
pub proof fn resolved_alpn_is_never_missing(
    protocol: Protocol,
    endpoint: EndpointView,
    supplied: Option<Seq<char>>,
    trust: TrustPolicy,
)
    requires
        endpoint.alpn == resolved_alpn_text(protocol, supplied),
    ensures
        transport_for(protocol, endpoint, trust) != Err::<TransportView, ConfigError>(
            ConfigError::MissingAlpn,
        ),
        transport_for(protocol, endpoint, trust) matches Ok(transport) ==> transport.alpn() == (
        if protocol.is_secure() {
            resolved_alpn_text(protocol, supplied)
        } else {
            None
        }),
        supplied is None ==> (transport_for(protocol, endpoint, trust) matches Ok(transport) ==> (
        protocol is Https ==> transport.alpn() == Some("h2"@)) && (protocol is Quic
            ==> transport.alpn() == Some("doq"@))),
{
}

/// The transport that is planned is one over the protocol that was chosen,
/// to the endpoint's address, with the endpoint's server name and under the
/// policy that was given.
pub proof fn planned_transport_keeps_its_inputs(
    protocol: Protocol,
    endpoint: EndpointView,
    trust: TrustPolicy,
)
    ensures
        transport_for(protocol, endpoint, trust) matches Ok(transport) ==> {
            &&& transport.protocol() == protocol
            &&& transport.nameserver() == endpoint.nameserver
            &&& transport.well_formed()
            &&& protocol.is_secure() ==> transport.dns_name() == endpoint.tls_dns_name
                && transport.trust() == Some(trust)
            &&& !protocol.is_secure() ==> transport.dns_name() is None && transport.trust() is None
        },
{
}

/// A create, an append and a delete without a zone are refused with
/// `MissingZone` whatever their record data: the zone is asked for before
/// any record set is built.
pub proof fn update_needs_zone(class: DNSClass, command: CommandView)
    requires
        command.is_update(),
    ensures
        request_for(class, None, command) == Err::<Request, RequestError>(
            RequestError::MissingZone,
        ),
{
}

/// A query is always submitted, and so is a notification without record
/// data: neither needs a zone or a record set.
pub proof fn query_and_bare_notify_are_always_submitted(
    class: DNSClass,
    zone: Option<Name>,
    command: CommandView,
)
    requires
        command.kind is Query || (command.kind is Notify && command.rdata.len() == 0),
    ensures
        request_for(class, zone, command) is Ok,
        request_for(class, zone, command)->Ok_0.record_set_of() is None,
{
}

/// Where a command builds a record set, one text that is not a textual form
/// of the record type is enough to refuse the whole command: no request
/// comes out, with or without the other texts' data.
pub proof fn one_bad_text_refuses_the_command(
    class: DNSClass,
    zone: Option<Name>,
    command: CommandView,
    i: int,
)
    requires
        command.has_record_set(),
        0 <= i < command.rdata.len(),
        rdata_of(command.ty, command.rdata[i]) is Err,
    ensures
        request_for(class, zone, command) is Err,
        zone is Some || !command.is_update() ==> request_for(class, zone, command) matches Err(
            RequestError::Rdata(_),
        ),
{
    lemma_extended_ok_iff_all_valid(
        record_set_in_class(new_record_set(command.name, command.ty, command.ttl), class),
        command.ty,
        command.rdata,
    );
}

/// A command with a zone where it needs one, and with texts that are all
/// textual forms of its record type, is submitted, and carries the record
/// set built from all of them, first text first.
pub proof fn valid_texts_are_all_submitted(
    class: DNSClass,
    zone: Option<Name>,
    command: CommandView,
)
    requires
        command.is_update() ==> zone is Some,
        command.has_record_set(),
        all_rdata_valid(command.ty, command.rdata),
    ensures
        request_for(class, zone, command) is Ok,
        command.record_set(class) is Ok,
        request_for(class, zone, command)->Ok_0.record_set_of() == Some(
            command.record_set(class)->Ok_0,
        ),
{
    lemma_extended_ok_iff_all_valid(
        record_set_in_class(new_record_set(command.name, command.ty, command.ttl), class),
        command.ty,
        command.rdata,
    );
}

/// The request is of the command's kind: a query for a query, a
/// notification for a notification, and for each update its own call.
pub proof fn request_is_of_the_commands_kind(
    class: DNSClass,
    zone: Option<Name>,
    command: CommandView,
)
    ensures
        request_for(class, zone, command) matches Ok(request) ==> match command.kind {
            CommandKind::Query => request == (Request::Query {
                name: command.name,
                class,
                ty: command.ty,
            }),
            CommandKind::Notify => request matches Request::Notify { name, class: c, ty, .. }
                && name == command.name && c == class && ty == command.ty,
            CommandKind::Create => request matches Request::Create { zone: z, .. } && zone
                == Some(z),
            CommandKind::Append => request matches Request::Append { zone: z, must_exist, .. }
                && zone == Some(z) && must_exist == command.must_exist,
            CommandKind::DeleteRecord => request matches Request::DeleteByRdata { zone: z, .. }
                && zone == Some(z),
        },
{
}

} // verus!
