[package]
name = "synapse"
version = "0.1.0"
edition = "2021"
publish = false

[dependencies]
reqwest = { version = "=0.12.28", default-features = false, features = ["json"] }
serde = { version = "=1.0.229", features = ["derive"] }
serde_json = "=1.0.154"
thiserror = "=1.0.69"
tokio = { version = "=1.54.1", features = ["macros", "rt-multi-thread", "sync", "time"] }
futures = "=0.3.34"
axum = { version = "=0.7.9", features = ["ws"] }
tracing = "=0.1.44"
uuid = { version = "=1.29.0", features = ["serde", "v4"] }
chrono = { version = "=0.4.45", default-features = false, features = ["serde", "clock"] }
clap = { version = "=4.6.7", features = ["derive"] }
clap_complete = "=4.6.11"
async-graphql = { version = "7", default-features = false, features = ["chrono", "uuid"] }
