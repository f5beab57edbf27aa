[package]
name = "tun_tcp"
version = "0.1.0"
edition = "2021"
publish = false

[dependencies]
smoltcp = "0.8"
tokio = { version = "1", features = ["rt", "sync", "time", "io-util", "macros", "net"] }
parking_lot = "0.12"
log = "0.4"
