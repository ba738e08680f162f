[package]
name = "displaycontrold"
version = "0.1.0"
edition = "2021"
publish = false

[dependencies]
serde = { version = "1", features = ["derive"] }
serde_json = "1"
serialport = { version = "4", default-features = false }
thiserror = "2"
clap = { version = "4", features = ["derive"] }
