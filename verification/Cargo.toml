[package]
name = "modbus_link"
version = "0.1.0"
edition = "2021"
publish = false

[dependencies]
tokio = { version = "1", default-features = false, features = ["rt", "net", "time", "io-util"] }
