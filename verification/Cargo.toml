[package]
name = "factories_actor"
version = "0.1.0"
edition = "2021"
publish = false

[dependencies]
critical-section = { version = "1", features = ["std"] }
futures = "0.3"
kanal = "0.1"
once_cell = "1"
pin-project = "1"
thiserror = "2"
tokio = { version = "1", features = ["sync", "rt", "rt-multi-thread"] }
tracing = "0.1"
