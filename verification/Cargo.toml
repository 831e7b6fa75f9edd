[package]
name = "wlcontrol"
version = "0.1.0"
edition = "2021"
publish = false

[dependencies]
tokio = { version = "1", features = ["rt-multi-thread", "sync", "time", "macros"] }
zbus = { version = "*", default-features = false, features = ["tokio"] }
async-channel = "*"
futures = "0.3"
tracing = "0.1"
bluer = { version = "*", features = ["bluetoothd"] }
