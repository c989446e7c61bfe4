[package]
name = "plan10"
version = "0.1.0"
edition = "2021"
publish = false

[dependencies]
anyhow = "1"
chrono = { version = "0.4", features = ["serde"] }
clap = { version = "4", features = ["derive", "env"] }
colored = "2"
dirs = "5"
hostname = "0.3"
indicatif = "0.17"
serde = { version = "1", features = ["derive"] }
shellexpand = "3"
ssh2 = "0.9"
sysinfo = "0.29"
tempfile = "3"
tokio = { version = "1", features = ["full"] }
toml = "0.8"
walkdir = "2"
