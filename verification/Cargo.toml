[package]
name = "claustre"
version = "0.1.0"
edition = "2021"
publish = false

[dependencies]
anyhow = "=1.0.104"
arboard = { version = "=3.7.0", default-features = false }
chrono = { version = "=0.4.45", default-features = false, features = ["clock", "std"] }
crossterm = "=0.28.1"
dirs = "=5.0.1"
portable-pty = "=0.8.1"
ratatui = { version = "=0.29.0", default-features = false, features = ["crossterm"] }
serde_json = "=1.0.154"
serde_yaml = "=0.9.34"
tracing = "=0.1.44"
vt100 = "=0.15.2"
