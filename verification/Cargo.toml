[package]
name = "openvpn3_dbus"
version = "1.0.0"
edition = "2021"
publish = false

[dependencies]
ashpd = { version = "0.11", default-features = false, features = ["tokio"] }
futures-util = "0.3"
tokio = { version = "1", features = ["fs", "macros", "rt-multi-thread", "sync", "time"] }
tracing = "0.1"
tracing-subscriber = { version = "0.3", features = ["env-filter"] }
zbus = { version = "5", default-features = false, features = ["blocking-api", "tokio"] }
