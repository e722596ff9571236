[package]
name = "channel_crawler"
version = "0.1.0"
edition = "2021"
publish = false

[dependencies]
anyhow = "1"
chrono = "0.4"
chrono-tz = "0.10"
figment = { version = "0.10", features = ["json", "env"] }
futures = "0.3"
log = "0.4"
mongodb = "2"
quick-xml = { version = "0.31", features = ["serialize"] }
rand = "0.8"
reqwest = { version = "0.11", default-features = false, features = ["json"] }
serde = { version = "1", features = ["derive"] }
simple_logger = "4"
tokio = { version = "1", features = ["macros", "rt-multi-thread", "sync", "time"] }
tokio-retry = "0.3"
whatlang = "0.16"
