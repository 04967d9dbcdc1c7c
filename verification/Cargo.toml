[package]
name = "rdp_client"
version = "0.1.0"
edition = "2021"
publish = false

[dependencies]
anyhow = "=1.0.104"
ironrdp = { version = "=0.16.0", default-features = false, features = ["connector", "graphics", "input", "pdu", "session"] }
ironrdp-blocking = "0.9"
pollster = "0.4"
tokio-rustls = { version = "=0.26.6", default-features = false }
winit = { version = "=0.30.13", default-features = false, features = ["rwh_06", "x11"] }
x509-cert = "=0.2.5"
