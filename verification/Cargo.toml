[package]
name = "seersdk_rs"
version = "0.1.0"
edition = "2021"
publish = false

[dependencies]
bytes = "*"
num_enum = "*"
serde = { version = "*", features = ["derive"] }
serde_json = "*"
thiserror = "*"
tokio = { version = "*", features = ["full"] }
tracing = "*"
