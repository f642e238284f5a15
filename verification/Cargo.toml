[package]
name = "personal_utils"
version = "0.1.0"
edition = "2021"
publish = false

[dependencies]
actix-web = { version = "=4.18.1", default-features = false, features = ["macros"] }
anyhow = "=1.0.104"
base64 = "=0.23.1"
clap = { version = "=4.6.7", features = ["derive"] }
fancy-regex = "=0.19.2"
image = { version = "=0.25.10", default-features = false }
indicatif = "=0.18.6"
log = "=0.4.34"
pretty_env_logger = "=0.5.0"
ramhorns = "=1.0.1"
regex = "=1.13.1"
reqwest = { version = "=0.12.28", default-features = false, features = ["json", "rustls-tls"] }
scraper = "=0.29.0"
serde = { version = "=1.0.229", features = ["derive"] }
serde_json = "=1.0.154"
simple_logger = "=5.2.0"
sql_query_builder = { version = "=2.7.2", features = ["sqlite"] }
sqlx = { version = "=0.8.6", default-features = false, features = ["sqlite", "postgres", "runtime-tokio", "uuid", "chrono", "migrate", "derive"] }
tempfile = "=3.27.0"
tokio = { version = "=1.54.1", features = ["macros", "rt-multi-thread"] }
zip = { version = "=9.0.5", default-features = false }
