[package]
name = "pipeline_supervisor"
version = "0.1.0"
edition = "2021"
publish = false

[dependencies]
anyhow = "*"
env_logger = "*"
gstreamer = "*"
gstreamer-app = "*"
log = "*"
tokio = { version = "*", features = ["rt-multi-thread"] }
