[package]
name = "state_bridge_relay"
version = "0.1.0"
edition = "2021"
publish = false

[dependencies]
alloy = { version = "0.3", default-features = false, features = ["std", "consensus", "signer-local"] }
config = { version = "0.14", default-features = false, features = ["toml"] }
eyre = "0.6"
futures = "0.3"
reqwest = { version = "0.12", default-features = false, features = ["json", "rustls-tls"] }
ruint = "1"
serde = { version = "1", features = ["derive"] }
serde_json = "1"
thiserror = "1"
tokio = { version = "1", features = ["macros", "rt-multi-thread", "sync", "time"] }
tracing = "0.1"
url = "2"
