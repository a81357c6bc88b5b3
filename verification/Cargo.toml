[package]
name = "wuma_tracker"
version = "0.1.0"
edition = "2021"
publish = false

[dependencies]
anyhow = "1"
libc = "0.2"
log = "0.4"
tokio = { version = "1", features = ["sync", "time", "macros", "rt"] }
