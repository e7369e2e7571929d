[package]
name = "funcky"
version = "0.1.0"
edition = "2021"
publish = false

[dependencies]
libloading = "=0.9.0"
warp = { version = "=0.4.3", features = ["server", "multipart"] }
tokio = { version = "=1.53.2", features = ["rt-multi-thread", "macros", "sync"] }
futures = "=0.3.34"
bytes = "=1.12.1"
serde = { version = "=1.0.229", features = ["derive"] }
serde_json = "=1.0.151"
log = "=0.4.34"
env_logger = "=0.11.11"
ctrlc = "=3.5.2"
tempfile = "=3.27.0"
clap = { version = "=4.6.7", features = ["derive"] }
reqwest = { version = "=0.13.5", default-features = false, features = ["multipart"] }
