[package]
name = "uprotocol_sensors"
version = "0.1.0"
edition = "2021"
publish = false

[dependencies]
async-trait = "*"
tokio = { version = "*", features = ["macros", "rt-multi-thread", "time"] }
up-rust = "*"
up-transport-mqtt5 = "*"
