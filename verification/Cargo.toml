[package]
name = "healthpi"
version = "0.1.0"
edition = "2021"
publish = false

[dependencies]
async-trait = "0.1"
bluez-async = "*"
chrono = { version = "0.4", default-features = false, features = ["clock", "std", "serde"] }
ctrlc = "3"
futures = "0.3"
log = "0.4"
log4rs = "1"
reqwest = { version = "0.11", default-features = false, features = ["json"] }
serde = { version = "1", features = ["derive"] }
serde_with = "3"
thiserror = "1"
tokio = { version = "1", features = ["macros", "rt-multi-thread", "sync", "time"] }
uuid = "1"
