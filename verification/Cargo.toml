[package]
name = "livetex"
version = "0.1.0"
edition = "2021"
publish = false

[dependencies]
anyhow = "*"
clap = { version = "*", features = ["derive"] }
env_logger = "*"
http-body-util = "*"
hyper = { version = "*", features = ["http1", "server"] }
hyper-util = { version = "*", features = ["tokio"] }
log = "*"
temp-dir = "*"
tokio = { version = "*", features = ["macros", "net", "rt-multi-thread", "time"] }
