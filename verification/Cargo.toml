[package]
name = "canistergeek_ic_rust"
version = "0.1.0"
edition = "2021"
publish = false

[dependencies]
chrono = "0.4"
regex = "1"
candid = "*"
serde = { version = "1", features = ["derive"] }
ic-cdk = "*"
num-traits = "0.2"
