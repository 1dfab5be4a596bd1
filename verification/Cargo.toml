[package]
name = "hackthebot"
version = "0.1.0"
edition = "2021"
publish = false

[dependencies]
dashmap = "=5.5.3"
chrono = "=0.4.45"
serenity = "=0.11.7"
reqwest = { version = "=0.11.27", default-features = false, features = ["json", "cookies", "rustls-tls"] }
graphql_client = { version = "=0.13.0", default-features = false, features = ["reqwest-rustls"] }
tokio = { version = "=1.54.1", features = ["macros", "rt-multi-thread"] }
async-mutex = "=1.4.1"
async-trait = "=0.1.92"
futures = "=0.3.34"
dotenv = "=0.15.0"
log = "=0.4.34"
pretty_env_logger = "=0.4.0"
color-eyre = "=0.6.5"
anyhow = "=1.0.104"
serde = { version = "=1.0.229", features = ["derive"] }
serde_json = "=1.0.154"
base64 = "=0.21.7"
