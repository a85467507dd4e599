[package]
name = "beambin_core"
version = "0.1.0"
edition = "2021"
publish = false

[dependencies]
idna = "=1.1.0"
regex = "=1.13.1"
serde = { version = "=1.0.229", features = ["derive"] }
serde_json = "=1.0.154"
databeam = "=0.1.3"
authbeam = "=1.3.2"
rainbeam-shared = "=0.1.8"
axum = "=0.7.9"
axum-extra = { version = "=0.9.6", features = ["cookie"] }
askama_axum = "=0.4.0"
mime_guess = "=2.0.5"
pathbufd = "=0.1.4"
reqwest = { version = "=0.12.28", features = ["stream"] }
tokio = { version = "=1.54.1", features = ["macros", "rt-multi-thread", "net"] }
toml = "=0.8.23"
tower-http = { version = "=0.6.11", features = ["trace", "fs"] }
tracing = "=0.1.44"
tracing-subscriber = "=0.3.23"
