[package]
name = "avim"
version = "0.1.0"
edition = "2021"
publish = false

[dependencies]
arboard = { version = "3", default-features = false }
base64 = "0.22"
crossterm = "0.27"
dirs = "5"
hex = "0.4"
ratatui = "0.26"
reqwest = { version = "0.12", default-features = false, features = ["json", "rustls-tls"] }
serde = { version = "1", features = ["derive"] }
serde_json = "1"
sha2 = "0.10"
textwrap = "0.16"
tokio = { version = "1", features = ["macros", "rt-multi-thread", "sync"] }
