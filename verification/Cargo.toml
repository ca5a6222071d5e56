[package]
name = "smscli"
version = "0.1.0"
edition = "2021"
publish = false

[dependencies]
rusmpp = { version = "=0.1.3", features = ["tokio-codec"] }
tokio = { version = "=1.54.1", features = ["full"] }
tokio-util = { version = "=0.7.20", features = ["codec"] }
futures = "=0.3.34"
clap = { version = "=4.6.7", features = ["derive"] }
dirs = "=7.0.0"
serde = { version = "=1.0.229", features = ["derive"] }
serde_yaml = "=0.9.34"
tracing = "=0.1.44"
tracing-subscriber = { version = "=0.3.23", features = ["env-filter"] }
yapp = "=0.5.0"
