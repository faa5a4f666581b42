[package]
name = "mindmap"
version = "0.1.0"
edition = "2021"
publish = false

[dependencies]
acap = "=0.4.0"
anyhow = "*"
clap = { version = "*", features = ["derive"] }
colored = "*"
fs2 = "*"
httparse = "=1.10.1"
inquire = "*"
log = "*"
markdown = "=1.0.0"
notify = "*"
rusqlite = { version = "=0.40.2", features = ["bundled", "fallible_uint"] }
serde = { version = "*", features = ["derive"] }
serde_json = "*"
serde_yaml = "*"
signal-hook = "*"
simple-logging = "*"
url = "=2.5.8"
walkdir = "*"
