[package]
name = "zed_core"
version = "0.1.0"
edition = "2021"
publish = false

[dependencies]
anyhow = "1"
libsqlite3-sys = "0.30"
strum = { version = "0.27", features = ["derive"] }
