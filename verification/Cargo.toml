[package]
name = "game_server"
version = "0.1.0"
edition = "2021"
publish = false

[dependencies]
rustc-hash = "*"
tokio = { version = "1", features = ["net", "time", "rt", "rt-multi-thread", "sync", "io-util"] }
anyhow = "1"
crypto_box = "*"
log = "*"
