[package]
name = "computa_use"
version = "0.1.0"
edition = "2021"
publish = false

[dependencies]
anyhow = "=1.0.104"
enigo = "=0.2.1"
image = "=0.25.10"
serde = { version = "=1.0.229", features = ["derive"] }
serde_json = "=1.0.154"
sysinfo = { version = "=0.32.1", default-features = false, features = ["system"] }
