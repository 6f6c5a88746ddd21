[package]
name = "sinopac_nt"
version = "0.1.1"
edition = "2021"
publish = false

[dependencies]
chrono = { version = "=0.4.45", default-features = false, features = ["alloc"] }
serde = { version = "=1.0.229", features = ["derive"] }
serde_json = "=1.0.154"
thiserror = "=2.0.21"
anyhow = "=1.0.104"
log = "=0.4.35"
tokio = { version = "=1.54.1", features = ["rt-multi-thread", "macros", "sync", "time"] }
tokio-tungstenite = "=0.29.0"
arc-swap = "=1.9.3"
ustr = "=1.1.0"
nautilus-core = { version = "=0.56.0", default-features = false }
nautilus-model = { version = "=0.56.0", default-features = false }
nautilus-common = { version = "=0.56.0", default-features = false, features = ["live"] }
nautilus-network = { version = "=0.56.0", default-features = false }
