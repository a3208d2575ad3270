[package]
name = "frame_handler"
version = "0.1.0"
edition = "2021"
publish = false

[dependencies]
vercel_runtime = "=1.1.6"
tokio = { version = "=1.53.2", features = ["macros", "rt-multi-thread"] }
tracing = "=0.1.44"
tracing-subscriber = "=0.3.23"
serde = { version = "=1.0.229", features = ["derive"] }
