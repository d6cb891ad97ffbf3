[package]
name = "cloud_seed"
version = "0.1.0"
edition = "2021"
publish = false

[dependencies]
anyhow = "1"
async-compression = { version = "0.4", features = ["tokio", "gzip"] }
async-trait = "0.1"
aws-config = { version = "0.55", default-features = false, features = ["rt-tokio"] }
base64 = "0.21"
flate2 = "1"
futures-util = "0.3"
hostname = { version = "0.3", features = ["set"] }
hyper = { version = "0.14", features = ["client", "http1", "tcp"] }
nix = { version = "0.26", default-features = false, features = ["user", "fs"] }
once_cell = "1"
serde = { version = "1", features = ["derive"] }
serde_json = "1"
serde_yaml = "0.9"
tokio = { version = "1", features = ["fs", "io-util", "macros", "rt-multi-thread"] }
tokio-util = { version = "0.7", features = ["io"] }
tracing = "0.1"
