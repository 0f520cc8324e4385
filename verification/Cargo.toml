[package]
name = "kinfer_kbot"
version = "0.1.0"
edition = "2021"
publish = false

[dependencies]
async-trait = "*"
clap = { version = "*", features = ["derive"] }
crossterm = "*"
eyre = "*"
imu = "*"
kinfer = "*"
ndarray = "*"
nix = { version = "*", features = ["time"] }
robstride = "*"
time = { version = "*", features = ["formatting", "macros"] }
tokio = { version = "*", features = ["full"] }
tracing = "*"
tracing-appender = "*"
tracing-subscriber = { version = "*", features = ["env-filter", "fmt", "registry", "time"] }
uuid = { version = "*", features = ["v4"] }
