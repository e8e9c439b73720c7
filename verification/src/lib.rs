//! Planning of one DNS exchange with one nameserver.
//!
//! The library decides, from the values a command line hands it, which
//! transport is to be built and under which certificate trust policy, and
//! which request is to be submitted with which record set. It opens no
//! socket and prints nothing: a caller builds the connection that a
//! [`Transport`] describes and submits the [`Request`] it was given.

pub mod laws;
pub mod logging;
pub mod protocol;
pub mod rdata_text;
pub mod record_set;
pub mod request;
pub mod rr;
pub mod tls;
pub mod transport;
pub mod trust;

pub use logging::{log_level, LogLevel};
pub use protocol::Protocol;
pub use record_set::{record_set_from, RdataError};
pub use request::{
    prepare_request, render_response, AppendOpt, Command, CommandKind, CommandView, CreateOpt, DeleteRecordOpt,
    NotifyOpt, Prepared, PreparedView, QueryOpt, Request, RequestError,
};
pub use tls::client_config;
pub use transport::{
    plan_transport, ConfigError, Endpoint, EndpointView, Transport, TransportView,
};
pub use trust::{TrustPolicy, Verdict, VerificationCall};
