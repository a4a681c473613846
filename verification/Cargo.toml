[package]
name = "thrust_core"
version = "0.1.0"
edition = "2021"
publish = false

[dependencies]
bevy = { version = "0.12", default-features = false }
bevy_replicon = { version = "0.17" }
clap = { version = "4", features = ["derive"] }
serde = { version = "1", features = ["derive"] }
