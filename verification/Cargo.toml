[package]
name = "zenoh-grpc"
version = "0.1.0"
edition = "2021"
publish = false

[dependencies]
tonic = "0.13"
serde = { version = "1", features = ["derive"] }
serde_json = "1"
schemars = "0.8"
tokio = { version = "1", features = ["sync", "rt-multi-thread", "macros", "time"] }
uuid = { version = "1", features = ["v4"] }
clap = { version = "4", features = ["derive"] }
thiserror = "2"
