[package]
name = "snipercor"
version = "0.1.0"
edition = "2021"
publish = false

[dependencies]
anyhow = "=1.0.104"
axum = { version = "*", default-features = false, features = ["json", "tokio", "http1"] }
bs58 = "=0.5.1"
chrono = { version = "=0.4.45", default-features = false, features = ["clock", "std"] }
dotenvy = "*"
rand = "=0.10.3"
redis = { version = "*", default-features = false, features = ["tokio-comp", "connection-manager"] }
reqwest = { version = "*", default-features = false, features = ["json"] }
serde = { version = "=1.0.229", features = ["derive"] }
serde_json = "=1.0.154"
solana-sdk = { version = "=2.3.1", default-features = false, features = ["full"] }
tokio = { version = "1", features = ["rt-multi-thread", "macros", "sync", "time", "net", "fs"] }
tracing = "*"
tracing-subscriber = { version = "*", default-features = false, features = ["env-filter", "fmt", "std"] }
uuid = { version = "=1.29.0", features = ["v4"] }
