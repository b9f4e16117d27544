[package]
name = "rafter"
version = "0.1.0"
edition = "2021"
publish = false

[dependencies]
clap = "=2.34.0"
failure = "=0.1.8"
futures = "=0.1.31"
net2 = "=0.2.39"
raft-consensus = "=0.4.0"
rmp-serde = "1.3"
serde = { version = "=1.0.229", features = ["derive"] }
slog = "=2.8.2"
slog-async = "=2.8.0"
slog-term = "=2.9.2"
tokio = "=0.1.22"
toml = "=0.4.10"
