[package]
name = "drainpipe"
version = "0.1.0"
edition = "2021"
publish = false

[dependencies]
anyhow = "1"
ciborium = "0.2"
cid = "*"
debug-ignore = "*"
diesel = { version = "2", features = ["sqlite"] }
diesel_migrations = "2"
dotenv-flow = "*"
futures = "0.3"
ipld-core = "*"
reqwest = { version = "0.12", features = ["json"] }
serde = { version = "1", features = ["derive"] }
serde_ipld_dagcbor = "*"
tokio = { version = "1", features = ["full"] }
tokio-metrics = "*"
tokio-tungstenite = { version = "*", features = ["native-tls"] }
