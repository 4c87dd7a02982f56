[package]
name = "px4_fsm"
version = "0.1.0"
edition = "2021"
publish = false

[dependencies]
anyhow = "1"
log = "0.4"
env_logger = "*"
tokio = { version = "1", features = ["rt-multi-thread", "macros", "time"] }
rclrs = "*"
