[package]
name = "vault"
version = "0.1.0"
edition = "2021"
publish = false

[dependencies]
similar = "2"
globset = "0.4"
directories = "*"
anyhow = "1"
clap = { version = "4", features = ["derive"] }
serde = { version = "1", features = ["derive"] }
serde_json = "1"
toml = "*"
chrono = { version = "0.4", features = ["serde"] }
fs4 = "*"
tokio = { version = "1", features = ["rt-multi-thread", "macros", "signal", "sync", "time"] }
