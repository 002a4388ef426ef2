[package]
name = "cctrusted_ccnp"
version = "0.1.0"
edition = "2021"
publish = false

[dependencies]
anyhow = "=1.0.104"
env_logger = "=0.11.11"
log = "=0.4.34"
tokio = { version = "=1.53.2", default-features = false, features = ["rt-multi-thread", "net", "io-util", "time"] }
