[package]
name = "serenity"
version = "0.1.0"
edition = "2021"
publish = false

[dependencies]
futures = "0.3"
reqwest = { version = "0.11", default-features = false }
serde = { version = "1", features = ["derive"] }
serde_json = "1"
tokio = { version = "1", default-features = false, features = ["sync", "time", "rt", "fs", "io-util"] }
tracing = "0.1"
typemap_rev = "0.3"
url = "2"
