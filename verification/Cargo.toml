[package]
name = "screenpipe_audio"
version = "0.1.0"
edition = "2021"
publish = false

[dependencies]
anyhow = "*"
bytemuck = "*"
chrono = "*"
cpal = "*"
log = "*"
serde = { version = "*", features = ["derive"] }
tokio = { version = "*", features = ["sync", "rt", "time", "macros"], default-features = false }
