[package]
name = "nemcsv"
version = "0.1.0"
edition = "2021"
publish = false

[dependencies]
chrono = "0.4"
chrono-tz = "0.8"
bytes = "1"
regex = "1"
reqwest = { version = "0.11", default-features = false }
tokio = { version = "1", features = ["rt-multi-thread", "macros"] }
zip = { version = "0.6", default-features = false, features = ["deflate"] }
