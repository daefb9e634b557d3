[package]
name = "tokio-zmq"
version = "0.4.0"
edition = "2021"
publish = false

[dependencies]
futures = "0.3"
log = "0.4"
tokio = { version = "1", features = ["net", "rt", "time"] }
zmq = "0.10"
