[package]
name = "clipboard_core"
version = "0.1.0"
edition = "2021"
publish = false

[dependencies]
base64 = "=0.22.1"
clipboard-rs = "=0.3.5"
napi = { version = "=3.15.0", features = ["napi4", "tokio_rt"] }
napi-derive = "=3.6.13"
tokio = { version = "=1.54.1", features = ["rt"] }
wayland-clipboard-listener = "=0.3.1"
