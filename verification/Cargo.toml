[package]
name = "membreak"
version = "0.1.0"
edition = "2021"
publish = false

[dependencies]
json = "0.12"
memflow = "0.1"
memflow-win32 = "0.1"
crossterm = "0.19"
serde = { version = "1", features = ["derive"] }
reqwest = { version = "0.11", default-features = false, features = ["blocking", "rustls-tls"] }
libm = "0.2"
dataview = "0.1"
