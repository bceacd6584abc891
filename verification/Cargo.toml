[package]
name = "aurisd"
version = "0.1.0"
edition = "2021"
publish = false

[dependencies]
aes = "0.8"
bluer = { version = "0.17", features = ["bluetoothd", "l2cap"] }
chrono = "0.4"
clap = { version = "4", features = ["derive"] }
dbus = { version = "0.9", features = ["vendored"] }
dbus-tokio = "0.7"
dirs = "*"
futures-util = "0.3"
libc = "0.2"
serde = { version = "1", features = ["derive"] }
serde_json = "1"
thiserror = "1"
tokio = { version = "1", features = ["full"] }
toml = "0.8"
toml_edit = "0.22"
tracing = "0.1"
tracing-subscriber = { version = "0.3", features = ["env-filter"] }
