[package]
name = "mallet"
version = "0.1.0"
edition = "2021"
publish = false

[dependencies]
raylib = { version = "=5.5.1", features = ["with_serde"] }
mlua = { version = "=0.10.5", features = ["lua54", "vendored", "serialize"] }
rfd = "=0.15.4"
serde = { version = "=1.0.229", features = ["derive"] }
serde_json = "=1.0.154"
