[package]
name = "event_sink"
version = "0.1.0"
edition = "2021"
publish = false

[dependencies]
serde_json = "1"
chrono = "0.4"
cloudevents-sdk = { version = "0.7", features = ["warp"] }
dotenv = "0.15"
envconfig = "0.10"
sqlx = { version = "0.7", features = ["postgres", "runtime-tokio-rustls", "chrono", "json"] }
tokio = { version = "1", features = ["macros", "rt-multi-thread"] }
tracing = "0.1"
tracing-panic = "0.1"
tracing-subscriber = "0.3"
warp = "0.3"
