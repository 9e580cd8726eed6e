[package]
name = "subsee"
version = "0.1.0"
edition = "2021"
publish = false

[dependencies]
argh = "=0.1.19"
color-eyre = "=0.6.5"
frame-metadata = { version = "=14.2.0", features = ["std", "v12", "v13", "v14"] }
hex = "=0.4.3"
parity-scale-codec = "=2.3.1"
scale-info = "=1.0.0"
serde_json = "=1.0.154"
ureq = { version = "=2.12.1", features = ["json"] }
