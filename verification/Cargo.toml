[package]
name = "lid_backlightd"
version = "0.1.0"
edition = "2021"
publish = false

[dependencies]
anyhow = "*"
clap = { version = "*", features = ["derive"] }
futures-util = "*"
tokio = { version = "*", features = ["macros", "rt-multi-thread", "signal", "time"] }
tracing = "*"
tracing-subscriber = { version = "*", features = ["env-filter"] }
zbus = { version = "*", features = ["tokio"], default-features = false }
