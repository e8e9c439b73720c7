[package]
name = "dns_dispatch"
version = "0.1.0"
edition = "2021"
publish = false

[dependencies]
clap = { version = "3.2", default-features = false, features = ["std", "derive"] }
env_logger = "0.9"
log = "0.4"
rustls = { version = "0.20", features = ["dangerous_configuration"] }
tokio = { version = "1", features = ["rt-multi-thread", "macros", "net"] }
trust-dns-client = { version = "0.22", default-features = false }
trust-dns-proto = { version = "0.22", features = ["dns-over-rustls", "dns-over-https-rustls", "dns-over-quic"] }
webpki-roots = "0.22"
