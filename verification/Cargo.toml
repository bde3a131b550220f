[package]
name = "telepingbot"
version = "0.1.0"
edition = "2021"
publish = false

[dependencies]
chrono = "=0.4.45"
sha256 = { version = "=1.6.0", default-features = false }
salvo = { version = "=0.44.1", features = ["affix", "logging"] }
socket2 = { version = "=0.4.10", features = ["all"] }
grammers-client = "=0.10.0"
grammers-session = "=0.10.0"
tokio = { version = "=1.54.1", features = ["macros", "rt-multi-thread", "signal", "time"] }
serde = { version = "=1.0.229", features = ["derive"] }
serde_json = "=1.0.154"
lazy_static = "=1.5.1"
log = "=0.4.34"
pretty_env_logger = "=0.5.0"
dotenv = "=0.15.0"
promptly = "=0.3.1"
