[package]
name = "assyst_core"
version = "0.1.0"
edition = "2021"
publish = false

[dependencies]
anyhow = "1"
emoji = "*"
serde = { version = "1", features = ["derive"] }
tokio = { version = "1", features = ["time"] }
tracing = "0.1"
twilight-model = "*"
twilight-util = { version = "*", features = ["builder"] }
