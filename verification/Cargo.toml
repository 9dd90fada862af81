[package]
name = "rob"
version = "0.1.0"
edition = "2021"
publish = false

[dependencies]
anyhow = "1"
clap = { version = "4", features = ["derive"] }
crossterm = "*"
dirs = "*"
futures-util = "*"
ratatui = "*"
reqwest = { version = "*", default-features = false, features = ["json", "stream", "rustls-tls"] }
rustyline = "*"
serde = { version = "1", features = ["derive"] }
serde_json = "1"
tokio = { version = "1", features = ["macros", "rt-multi-thread", "process", "time", "io-util"] }
toml = "*"
url = "2"
uuid = { version = "1", features = ["v4"] }
