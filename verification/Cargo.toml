[package]
name = "motor_lib"
version = "0.1.0"
edition = "2021"
publish = false

[dependencies]
rusb = "*"
tokio = { version = "*", features = ["rt-multi-thread", "macros"] }
tonic = "*"
prost = "*"
