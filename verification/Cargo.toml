[package]
name = "openless"
version = "0.1.0"
edition = "2021"
publish = false

[dependencies]
url = "2"
ferrous-opencc = "*"
uuid = { version = "1", features = ["v4"] }
global-hotkey = "*"
serde = { version = "1", features = ["derive"] }
serde_json = "1"
tokio = { version = "1", features = ["rt-multi-thread", "process", "time", "sync", "io-util", "macros"] }
chrono = "0.4"
dbus = "0.9"
arboard = { version = "3", default-features = false }
keyring = "3"
libc = "0.2"
