[package]
name = "rdp_screenshot"
version = "0.1.0"
edition = "2021"
publish = false

[dependencies]
anyhow = "1"
clap = { version = "4", default-features = false, features = ["std", "help", "usage", "error-context", "derive"] }
ctrlc = "3"
image = { version = "0.25", default-features = false, features = ["png"] }
ironrdp = { version = "0.14", default-features = false, features = ["connector", "session", "graphics", "pdu"] }
ironrdp-blocking = "0.8"
ironrdp-graphics = "0.7"
ironrdp-pdu = "0.7"
sspi = { version = "0.18", features = ["network_client"] }
tokio-rustls = "0.26"
tracing = "0.1"
tracing-subscriber = { version = "0.3", default-features = false, features = ["std", "fmt", "ansi", "env-filter"] }
x509-cert = { version = "0.2", default-features = false, features = ["std"] }
