[package]
name = "med_ledger"
version = "0.1.0"
edition = "2021"
publish = false

[dependencies]
askama = "0.12"
chrono = "0.4"
derive-new = "0.5"
form_urlencoded = "1"
http = "0.2"
hyper = { version = "0.14", features = ["full"] }
num-rational = "0.4"
num-traits = "0.2"
once_cell = "1"
regex = "1"
serde = { version = "1", features = ["derive"] }
serde_json = "1"
tokio = { version = "1", features = ["full"] }
toml = "0.5"
tracing = "0.1"
tracing-appender = "0.2"
tracing-subscriber = { version = "0.3", features = ["env-filter"] }
url = "2"
