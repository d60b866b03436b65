[package]
name = "trace_test"
version = "0.1.0"
edition = "2021"
publish = false

[dependencies]
actix-web = { version = "=4.18.1", default-features = false, features = ["macros"] }
tokio = { version = "=1.54.1", features = ["macros", "rt-multi-thread", "time"] }
futures = "=0.3.34"
log = "=0.4.35"
env_logger = "=0.11.11"
minitrace = { version = "=0.6.7", features = ["enable"] }
minitrace-jaeger = "=0.6.7"
logcall = "=0.2.1"
better-panic = "=0.3.0"
human-panic = "=2.0.8"
