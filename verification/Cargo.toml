[package]
name = "tms_heartbeat"
version = "0.1.0"
edition = "2021"
publish = false

[dependencies]
uuid = { version = "1", features = ["v4"] }
rustdds = "*"
serde = { version = "1", features = ["derive"] }
futures = "0.3"
smol = "2"
log = "0.4"
log4rs = "1"
structopt = "0.3"
strum = { version = "*", features = ["derive"] }
