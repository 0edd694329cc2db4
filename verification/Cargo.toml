[package]
name = "xp_leveling"
version = "0.1.0"
edition = "2021"
publish = false

[dependencies]
chrono = "=0.4.45"
chrono-humanize = "=0.2.3"
dotenv = "=0.15.0"
env_logger = "=0.10.2"
image = { version = "=0.24.9", default-features = false, features = ["png"] }
log = "=0.4.34"
rand = "=0.8.8"
regex = "=1.13.1"
reqwest = { version = "=0.11.27", default-features = false, features = ["json", "blocking", "rustls-tls"] }
serde = { version = "=1.0.229", features = ["derive"] }
serde_json = "=1.0.154"
serenity = { version = "=0.11.7", features = ["collector"] }
tokio = { version = "=1.54.1", features = ["macros", "rt-multi-thread", "time"] }
