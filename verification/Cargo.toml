[package]
name = "mkv"
version = "0.1.0"
edition = "2021"
publish = false

[dependencies]
rand = "0.8"
serde = "1"
serde_derive = "1"
serde-xml-rs = "0.6"
time = "0.3"
tokio = { version = "1", features = ["fs", "io-util", "rt", "rt-multi-thread", "macros"] }
