[package]
name = "photonic_fx"
version = "0.1.0"
edition = "2021"
publish = false

[dependencies]
shlex = "=1.3.0"
rand = { version = "=0.9.5", features = ["small_rng"] }
palette = "=0.7.7"
ezing = "=0.2.1"
noise = "=0.9.0"
serde = { version = "=1.0.229", features = ["derive"] }
serde_json = "=1.0.154"
yansi = "=1.0.1"
itertools = "=0.13.0"
anyhow = "=1.0.104"
tokio = { version = "=1.54.1", features = ["rt", "macros", "io-util", "io-std", "net", "time", "fs", "sync"] }
tokio-stream = "=0.1.19"
rumqttc = { version = "=0.24.0", default-features = false, features = ["url"] }
futures = "=0.3.34"
bytes = "=1.12.1"
