[package]
name = "app_runtime"
version = "0.1.0"
edition = "2021"
publish = false

[dependencies]
toml = "0.8"
dirs = "6"
serde = { version = "1", features = ["derive"] }
serde_json = "1"
thiserror = "2"
tracing = "0.1"
url = "2"
euclid = "0.22"
winit = { version = "0.30", features = ["rwh_06"] }
rfd = "0.15"
arboard = "3"
open = "5"
reqwest = { version = "0.12", default-features = false, features = ["rustls-tls", "json"] }
rustls = "0.23"
tokio = { version = "1", features = ["fs", "rt", "macros"] }
clap = { version = "4", features = ["derive"] }
walkdir = "2"
syn = { version = "2", features = ["full", "visit"] }
quote = "1"
