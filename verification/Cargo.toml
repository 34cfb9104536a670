[package]
name = "rax_ftp_server"
version = "0.1.0"
edition = "2021"
publish = false

[dependencies]
log = "0.4"
env_logger = "0.11"
tokio = { version = "1", features = ["full"] }
serde = { version = "1", features = ["derive"] }
config = { version = "0.14", default-features = false, features = ["toml"] }
