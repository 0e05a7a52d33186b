[package]
name = "election_bot"
version = "0.1.0"
edition = "2021"
publish = false

[dependencies]
anyhow = "=1.0.104"
chrono = "=0.4.45"
diesel = { version = "=2.3.14", features = ["postgres", "r2d2", "chrono"] }
dotenvy = "=0.15.7"
env_logger = "=0.11.11"
futures = "=0.3.34"
log = "=0.4.35"
r2d2 = "=0.8.10"
serde = { version = "=1.0.229", features = ["derive"] }
tokio = { version = "=1.54.1", features = ["full"] }
toml = "=0.8.23"
twilight-cache-inmemory = "=0.16.0"
twilight-gateway = "=0.16.0"
twilight-http = "=0.16.0"
twilight-interactions = "=0.16.2"
twilight-model = "=0.16.0"
twilight-util = { version = "=0.16.0", features = ["builder"] }

[dev-dependencies]
regex = "1"
