[package]
name = "mpris_client"
version = "0.1.0"
edition = "2021"
publish = false

[dependencies]
anyhow = "=1.0.104"
futures = "=0.3.34"
serde = { version = "=1.0.229", features = ["derive"] }
zbus = { version = "=5.19.0", features = ["p2p"] }
zbus_macros = "=5.19.0"
zvariant = "=5.15.1"
