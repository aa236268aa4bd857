[package]
name = "market_data"
version = "0.1.0"
edition = "2021"
publish = false

[dependencies]
async-trait = "0.1"
chrono = "0.4"
log = "0.4"
reqwest = { version = "0.12", default-features = false, features = ["json"] }
rust_decimal = "1"
serde = { version = "1", features = ["derive"] }
serde_json = "1"
urlencoding = "2"
