[package]
name = "aurelia_tui"
version = "0.1.0"
edition = "2021"
publish = false

[dependencies]
fuzzy-matcher = "=0.3.7"
image = "=0.24.9"
tui = "=0.18.0"
crossterm = "=0.23.2"
serde = { version = "=1.0.229", features = ["derive"] }
serde_json = "=1.0.154"
reqwest = { version = "=0.11.27", default-features = false, features = ["blocking", "rustls-tls"] }
qrcode = { version = "=0.14.1", default-features = false }
pretty-bytes = "=0.2.2"
shellexpand = "=3.1.2"
tui-image-rgba-updated = "=0.2.2"
