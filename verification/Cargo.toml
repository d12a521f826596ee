[package]
name = "bot_core"
version = "0.1.0"
edition = "2021"
publish = false
rust-version = "1.95"

[dependencies]
chrono = "=0.4.45"
clokwerk = "=0.4.0"
dotenv = "=0.15.0"
env_logger = "=0.10.2"
futures-core = "=0.3.34"
log = "=0.4.34"
serde = { version = "=1.0.229", features = ["derive"] }
sqlx = { version = "=0.7.4", default-features = false, features = ["sqlite", "runtime-tokio", "chrono", "json", "macros"] }
# teloxide-core builds on takecell, whose 0.1.2 asks for a newer compiler
# than rust-version; this line keeps it at 0.1.1.
takecell = "<0.1.2"
teloxide = { version = "=0.12.2", default-features = false, features = ["macros", "ctrlc_handler", "rustls"] }
tokio = { version = "=1.54.1", features = ["rt-multi-thread", "macros", "sync", "time", "fs", "io-util"] }
