[package]
name = "massping"
version = "0.1.0"
edition = "2021"
publish = false

[dependencies]
bytes = "1"
futures-core = "0.3"
getrandom = "0.3"
pnet_packet = "0.35"
socket2 = "0.5"
tokio = { version = "1", features = ["net", "rt", "sync", "time"] }
