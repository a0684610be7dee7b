[package]
name = "lattica_tool_server"
version = "0.1.0"
edition = "2021"
publish = false

[dependencies]
actix-web = "=4.15.0"
anyhow = "=1.0.104"
env_logger = "=0.11.11"
log = "=0.4.34"
serde = { version = "=1.0.229", features = ["derive"] }
serde_json = "=1.0.151"
tempfile = "=3.27.0"
tokio = { version = "=1.53.2", features = ["macros", "process", "rt-multi-thread", "time", "fs", "io-util"] }
wasmtime = "=48.0.5"
wasmtime-wasi = "=48.0.5"
