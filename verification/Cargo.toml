[package]
name = "nur_worker"
version = "0.1.0"
edition = "2021"
publish = false

[dependencies]
wasmer = "=6.1.0"
uuid = "=1.27.0"
tokio = { version = "=1.53.2", features = ["full"] }
flume = "=0.12.0"
log = "=0.4.34"
env_logger = "=0.10.2"
lazy_static = "=1.5.1"
dotenvy = "=0.15.7"
async-compression = { version = "=0.4.50", features = ["tokio", "zstd"] }
deadpool-postgres = "=0.14.2"
tokio-postgres = { version = "=0.7.18", features = ["with-uuid-1"] }
