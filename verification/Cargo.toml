[package]
name = "ghcr_cleaner"
version = "0.1.0"
edition = "2021"
publish = false

[dependencies]
futures = "0.3"
log = "0.4"
reqwest = { version = "0.11", features = ["json"] }
rpassword = "5"
serde = { version = "1", features = ["derive"] }
simple_logger = "*"
tokio = { version = "1", features = ["macros", "rt-multi-thread", "time"] }
