[package]
name = "batchalign_core"
version = "0.1.0"
edition = "2021"
publish = false

[dependencies]
sysinfo = "*"
uuid = { version = "1", features = ["v4"] }
fs2 = "0.4"
serde = { version = "1", features = ["derive"] }
serde_json = "1"
thiserror = "*"
