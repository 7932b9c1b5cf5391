[package]
name = "hitokage_core"
version = "0.1.0"
edition = "2021"
publish = false

[dependencies]
indexmap = "2"
serde = { version = "1", features = ["derive"] }
serde_json = "1"
handlebars = "*"
chrono = "0.4"
systemstat = "0.2"
log = "0.4"
anyhow = "1"
dirs = "*"
lazy_static = "1"
mlua = { version = "*", features = ["lua54", "vendored", "serialize"] }
rustc-hash = "*"
serde-value = "*"
