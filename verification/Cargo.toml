[package]
name = "tradebot"
version = "0.1.0"
edition = "2021"
publish = false

[dependencies]
chrono = "=0.4.45"
chrono-tz = "=0.10.4"
tokio = { version = "1", features = ["macros", "rt-multi-thread", "sync", "time"] }
tonic = { version = "=0.9.2", features = ["tls", "tls-roots"] }
prost = "=0.11.9"
prost-types = "=0.11.9"
teloxide = { version = "=0.12.2", features = ["macros"] }
takecell = "=0.1.1"
dptree = "=0.3.0"
pretty_env_logger = "0.5"
serde = { version = "1", features = ["derive"] }
serde_json = "1"
uuid = { version = "1", features = ["v4"] }
