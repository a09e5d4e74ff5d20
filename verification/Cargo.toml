[package]
name = "anda_bot"
version = "0.1.0"
edition = "2021"
publish = false

[dependencies]
anda_core = { version = "0.6", default-features = false }
anda_engine = { version = "0.6", default-features = false }
idna_adapter = "=1.0.0"
log = { version = "0.4", features = ["kv"] }
proptest = { version = "=1.4.0", default-features = false, features = ["std"] }
quinn-proto = { version = "=0.11.8", default-features = false }
serde_json = "1"
tokio = { version = "1", features = ["macros", "rt-multi-thread", "sync", "time"] }
tokio-util = "0.7"
