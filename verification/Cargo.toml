[package]
name = "historia"
version = "0.1.0"
edition = "2021"
rust-version = "1.95"
publish = false

[dependencies]
chrono = "=0.4.45"
email_address = "=0.2.9"
html-escape = "=0.3.0"
urlencoding = "=2.1.3"
url = "=2.5.8"
scraper = "=0.29.0"
governor = "=0.10.4"
anyhow = "=1.0.104"
serde = { version = "=1.0.229", features = ["derive"] }
serde_json = "=1.0.154"
serde_yaml = "=0.9.34"
camino = "=1.2.6"
tracing = "=0.1.44"
tracing-subscriber = "=0.3.23"
tokio = { version = "=1.54.1", features = ["rt-multi-thread", "macros"] }
reqwest = { version = "=0.12.28", default-features = false, features = ["json"] }
teloxide = { version = "=0.17.0", default-features = false, features = ["macros", "ctrlc_handler", "throttle"] }
# Not used by name: teloxide-core depends on takecell, and takecell 0.1.2
# asks for a newer compiler than the rust-version above.
takecell = "=0.1.1"
sqlx = { version = "=0.9.0", default-features = false, features = ["sqlite", "runtime-tokio"] }

[dev-dependencies]
regex = "=1.13.1"
