[package]
name = "gexbot"
version = "0.1.0"
edition = "2021"
publish = false

[dependencies]
actix-rt = "2"
actix-web = { version = "4", default-features = false, features = ["macros", "rustls-0_23"] }
awc = { version = "3", default-features = false }
anyhow = "1"
bytes = "1"
env_logger = "0.11"
futures = "0.3"
log = "0.4"
regex = "1"
rustls = "0.23"
serde = { version = "1", features = ["derive"] }
serde_json = "1"
serde_yaml = "0.9"
sqlx = { version = "0.8", default-features = false, features = ["mysql", "runtime-tokio"] }
twilight-cache-inmemory = "0.11"
twilight-embed-builder = "0.11"
twilight-gateway = "0.11"
twilight-http = "0.11"
twilight-model = "0.11"
