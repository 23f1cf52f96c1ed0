[package]
name = "inference"
version = "0.1.0"
edition = "2021"
publish = false

[dependencies]
anyhow = "1"
async-trait = "0.1"
bincode = "1"
candle-core = "*"
env_logger = "*"
futures = "0.3"
hf-hub = { version = "*", features = ["tokio"] }
linfa = "0.7"
linfa-clustering = "0.7"
linfa-linear = "0.7"
linfa-nn = "0.7"
ndarray = "0.15"
once_cell = "1"
ort = { version = "=2.0.0-rc.10", default-features = false, features = ["std", "ndarray", "load-dynamic"] }
rand = "0.8"
reqwest = { version = "0.12", features = ["stream"] }
safetensors = "*"
serde = { version = "1", features = ["derive"] }
serde_json = "1"
thiserror = "1"
tokio = { version = "1", features = ["full"] }
