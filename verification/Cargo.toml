[package]
name = "cryopod"
version = "0.1.0"
edition = "2021"
publish = false

[dependencies]
httparse = "1"
serde_json = "1"
tokio = { version = "1", features = ["net", "io-util", "rt-multi-thread", "macros"] }
clap = { version = "4", features = ["derive"] }
color-eyre = "0.6"
thiserror = "2"
users = "0.11"
