[package]
name = "sma_inverter_exporter"
version = "0.1.0"
edition = "2021"
publish = false

[dependencies]
config = { version = "0.14", default-features = false, features = ["ini"] }
http-body-util = "0.1"
hyper = { version = "1", features = ["server", "http1"] }
hyper-util = { version = "0.1", features = ["tokio"] }
lazy_static = "1"
prometheus = { version = "0.13", default-features = false }
socket2 = "0.5"
tokio = { version = "1", features = ["rt-multi-thread", "macros", "net", "time"] }
