[package]
name = "huawei_solar"
version = "0.1.0"
edition = "2021"
publish = false

[dependencies]
byteorder = "1"
chrono = { version = "0.4", default-features = false, features = ["std"] }
clap = "4"
modbus = "1"
serde = { version = "1", features = ["derive"] }
serde_json = "1"
