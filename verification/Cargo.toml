[package]
name = "orchestrator"
version = "0.1.0"
edition = "2021"
publish = false

[dependencies]
fastrand = "=2.5.0"
serde = { version = "=1.0.229", features = ["derive"] }
serde_json = "=1.0.154"
clap = { version = "=4.6.7", features = ["derive"] }
tokio = { version = "=1.54.1", features = ["full"] }
tracing = "=0.1.44"
tracing-subscriber = "=0.3.23"
zbus = "=5.19.0"
ashpd = { version = "=0.13.13", features = ["global_shortcuts"] }
futures-util = "=0.3.34"
tempfile = "=3.27.0"
dirs = "=7.0.0"
