[package]
name = "tcp2quic"
version = "0.1.0"
edition = "2021"
publish = false

[dependencies]
quinn = { version = "0.11", default-features = false, features = ["runtime-tokio", "rustls-aws-lc-rs"] }
rcgen = "0.14"
rustls = "0.23"
tokio = { version = "1", features = ["full"] }
webpki-roots = "1"
