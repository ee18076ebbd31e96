[package]
name = "mpris"
version = "3.0.0"
edition = "2021"
publish = false

[dependencies]
zbus = "*"
futures-util = "*"
serde = { version = "1", features = ["derive"] }
dbus = "*"
