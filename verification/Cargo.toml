[package]
name = "network_observer"
version = "0.1.0"
edition = "2021"
publish = false

[dependencies]
anyhow = "1"
clap = { version = "4", features = ["derive", "env"] }
dotenv = "0.15"
futures = "0.3"
libp2p = { version = "0.54", features = ["dns", "ed25519", "identify", "kad", "macros", "metrics", "ping", "quic", "tokio"] }
libp2p-swarm-derive = "0.35"
log = "0.4"
prometheus-client = "0.22"
reqwest = { version = "0.12", default-features = false, features = ["json", "rustls-tls"] }
serde = { version = "1", features = ["derive"] }
tokio = { version = "1", features = ["macros", "net", "rt-multi-thread", "signal", "io-util"] }
tokio-util = "0.7"
tracing = "0.1"
tracing-subscriber = { version = "0.3", features = ["env-filter"] }
