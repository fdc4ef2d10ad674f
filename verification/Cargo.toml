[package]
name = "nmrs"
version = "0.1.0"
edition = "2021"
publish = false

[dependencies]
zbus = "5"
zvariant = "5"
futures = "0.3"
futures-timer = "3"
tokio = { version = "1", features = ["sync", "rt", "macros"] }
log = "0.4"
serde = { version = "1", features = ["derive"] }
thiserror = "2"
uuid = "1"
