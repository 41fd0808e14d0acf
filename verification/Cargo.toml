[package]
name = "testcontainers_oxia"
version = "0.1.0"
edition = "2021"
publish = false

[dependencies]
testcontainers = "=0.28.0"
oxia-client = "*"
tokio = { version = "=1.53.2", features = ["macros", "rt-multi-thread"] }
log = "=0.4.34"
