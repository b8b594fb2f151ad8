[package]
name = "demux_rs"
version = "0.1.0"
edition = "2021"
publish = false

[dependencies]
serde = { version = "*", features = ["derive"] }
serde_derive = "*"
serde_json = "*"
chrono = { version = "*", features = ["serde"] }
clap = "*"
console = "*"
hyper = { version = "*", features = ["full"] }
hyper-util = { version = "*", features = ["full"] }
http-body-util = "*"
tokio = { version = "*", features = ["full"] }
