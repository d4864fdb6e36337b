[package]
name = "matrix_sync"
version = "0.1.0"
edition = "2021"
publish = false

[dependencies]
async-stream = "0.3"
futures-core = "0.3"
futures-util = "0.3"
ruma = { version = "0.9", features = ["client-api-c", "unstable-msc3575"] }
serde = { version = "1", features = ["derive"] }
serde_json = "1"
thiserror = "1"
tokio = { version = "1", features = ["macros", "rt-multi-thread", "sync"] }
tracing = "0.1"
url = "2"
