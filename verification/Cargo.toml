[package]
name = "bottle_bid"
version = "0.1.0"
edition = "2021"
publish = false

[dependencies]
async-std = "1"
chrono = "0.4"
clap = { version = "4", features = ["derive"] }
futures = "0.3"
log = "0.4"
protobuf = "3"
rand = "0.8"
simple_logger = "4"
sqlx = { version = "0.7", default-features = false, features = ["runtime-async-std", "sqlite", "macros"] }
