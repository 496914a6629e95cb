[package]
name = "arrow_tds"
version = "0.1.0"
edition = "2021"
publish = false

[dependencies]
arrow-array = { version = "56", features = ["chrono-tz"] }
arrow-buffer = "56"
arrow-schema = "56"
chrono = "0.4"
tiberius = { version = "0.12", default-features = false, features = ["tds73"] }
