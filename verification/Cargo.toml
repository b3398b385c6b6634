[package]
name = "do_client"
version = "0.1.0"
edition = "2021"
publish = false

[dependencies]
url = "=2.5.8"
serde_json = "=1.0.151"
toml = "=1.1.7"
serde = { version = "*", features = ["derive"] }
reqwest = { version = "*", default-features = false, features = ["json", "rustls-tls"] }
tokio = { version = "*", features = ["rt-multi-thread", "macros", "fs"] }
clap = { version = "*", features = ["derive"] }
comfy-table = "=8.0.1"
console = "*"
dialoguer = "*"
dirs = "*"
chrono = { version = "=0.4.45", features = ["serde"] }
anyhow = "*"

[dev-dependencies]
