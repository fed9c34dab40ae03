[package]
name = "housewatch"
version = "0.1.0"
edition = "2021"
publish = false

[dependencies]
chrono = "=0.4.45"
reqwest = { version = "=0.12.28", default-features = false, features = ["cookies", "json"] }
serde = { version = "=1.0.229", features = ["derive"] }
serde_json = "=1.0.151"
tokio = { version = "=1.53.2", features = ["macros", "rt-multi-thread", "sync", "time", "signal"] }
futures = "=0.3.34"
teloxide = { version = "=0.12.2", default-features = false, features = ["rustls", "macros", "webhooks-axum", "ctrlc_handler"] }
log = "=0.4.34"
env_logger = "=0.11.11"
dotenv = "=0.15.0"
thiserror = "=1.0.69"
# Not used by any source file: pins teloxide-core's transitive dependency,
# whose 0.1.2 release needs a newer rustc than the toolchain here provides.
takecell = "=0.1.1"
