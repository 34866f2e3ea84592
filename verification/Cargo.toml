[package]
name = "js_ts_runner"
version = "0.1.0"
edition = "2021"
publish = false

[dependencies]
chrono = "*"
confy = "*"
serde = { version = "*", features = ["derive"] }
v8 = "*"
