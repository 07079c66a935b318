[package]
name = "ledger_grpc_reader"
version = "0.1.0"
edition = "2021"
publish = false

[dependencies]
anyhow = "=1.0.104"
async-graphql = { version = "=7.2.1", default-features = false, features = ["dataloader"] }
bytes = "=1.12.1"
clap = { version = "=4.6.7", features = ["derive"] }
futures = "=0.3.34"
prometheus = "=0.14.0"
prost-types = "=0.14.4"
sui-rpc = "0.3.2"
sui-sdk-types = { version = "0.3.2", features = ["serde"] }
thiserror = "=2.0.21"
tokio = { version = "=1.54.1", features = ["rt"] }
tonic = { version = "=0.14.9", features = ["tls-native-roots", "tls-ring"] }
tower = "=0.5.3"
tracing = "=0.1.44"
