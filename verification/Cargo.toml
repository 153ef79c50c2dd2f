[package]
name = "simse_core"
version = "0.1.0"
edition = "2021"
publish = false

[dependencies]
regex = "=1.13.1"
serde = { version = "=1.0.229", features = ["derive"] }
serde_json = "=1.0.154"
tokio = { version = "=1.54.1", features = ["rt-multi-thread", "macros", "time", "sync", "fs", "io-std", "io-util", "process"] }
tokio-util = { version = "=0.7.20", features = ["compat"] }
futures = "=0.3.34"
async-trait = "=0.1.92"
tracing = "=0.1.44"
tracing-subscriber = { version = "=0.3.23", features = ["env-filter", "fmt"] }
thiserror = "=2.0.21"
im = "=15.1.0"
agent-client-protocol = "*"
reqwest = { version = "*", default-features = false, features = ["json"] }
