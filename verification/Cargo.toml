[package]
name = "tgbot_mastodon_sync"
version = "0.1.0"
edition = "2021"
publish = false

[dependencies]
anyhow = "=1.0.104"
const_format = "=0.2.37"
dirs = "=7.0.0"
dptree = "=0.3.0"
lingua = { version = "=1.8.0", default-features = false, features = ["chinese", "english", "japanese", "korean", "russian", "ukrainian"] }
mastodon-async = "=1.3.2"
once_cell = "=1.21.4"
reqwest = { version = "=0.11.27", default-features = false }
serde_json = "=1.0.154"
spdlog-rs = "=0.5.3"
sqlx = { version = "=0.6.3", default-features = false, features = ["sqlite", "runtime-tokio-rustls"] }
takecell = "<0.1.2"
teloxide = { version = "=0.12.2", default-features = false, features = ["macros", "rustls", "ctrlc_handler"] }
tempfile = "=3.27.0"
tokio = { version = "=1.54.1", features = ["full"] }
