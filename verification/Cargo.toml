[package]
name = "scarlett_control"
version = "0.1.0"
edition = "2021"
publish = false

[dependencies]
sha2 = "0.10"
nusb = "0.1"
futures = "0.3"
tokio = { version = "1", features = ["rt-multi-thread", "sync", "time", "macros"] }
serde = { version = "1", features = ["derive"] }
ron = "0.8"
directories = "5"
