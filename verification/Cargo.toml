[package]
name = "synapse"
version = "0.1.0"
edition = "2021"
publish = false

[dependencies]
serde = { version = "1", features = ["derive"] }
serde_json = "1"
thiserror = "*"
tokio = { version = "1", features = ["macros", "rt-multi-thread", "net", "signal", "process", "time", "io-util", "sync"] }
tokio-util = "*"
redis = { version = "*", features = ["tokio-comp", "connection-manager"] }
async-nats = "*"
bytes = "1"
futures-util = "*"
axum = "*"
rmcp = { version = "*", features = ["server", "transport-streamable-http-server"] }
reqwest = { version = "*", default-features = false, features = ["json"] }
sqlx = { version = "*", default-features = false, features = ["sqlite", "runtime-tokio", "migrate"] }
tracing = "0.1"
tracing-subscriber = { version = "0.3", features = ["env-filter"] }
async-trait = "*"
