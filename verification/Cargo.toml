[package]
name = "lsp"
version = "0.1.0"
edition = "2021"
publish = false

[dependencies]
percent-encoding = "=2.3.2"
serde = { version = "=1.0.229", features = ["derive"] }
ureq = { version = "=3.5.1", features = ["json"] }

[dev-dependencies]
serde_json = "=1.0.154"
