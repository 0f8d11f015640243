[package]
name = "stool"
version = "0.1.0"
edition = "2021"
publish = false

[dependencies]
bytes = "1"
druid = "0.8"
futures = "0.3"
futures-util = { version = "0.3", features = ["sink"] }
hex = "0.4"
serialport = { version = "4", default-features = false }
tokio = { version = "1", features = ["rt", "macros", "net"] }
tokio-serial = "5.4"
tokio-util = { version = "0.7", features = ["codec"] }
