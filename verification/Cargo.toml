[package]
name = "rpc_router"
version = "0.1.0"
edition = "2021"
publish = false

[dependencies]
tonic = "0.11"
serde = { version = "1", features = ["derive"] }
bincode = { version = "2", features = ["derive"] }
log = "0.4"
tokio = { version = "1", features = ["rt", "macros"] }
