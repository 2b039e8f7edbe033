[package]
name = "baca"
version = "0.1.0"
edition = "2021"
publish = false

[dependencies]
deunicode = "=1.6.2"
serde = { version = "=1.0.229", features = ["derive"] }
serde_json = "=1.0.154"
serde_yaml = "=0.9.34"
clap = { version = "=4.6.7", features = ["derive"] }
colored = "=2.2.0"
dialoguer = "=0.11.0"
tracing = "=0.1.44"
tracing-subscriber = "=0.3.23"
reqwest = { version = "=0.12.28", default-features = false, features = ["blocking", "multipart", "cookies", "rustls-tls"] }
regex = "1"
