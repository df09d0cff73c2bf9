[package]
name = "webrtc_bridge"
version = "0.1.0"
edition = "2021"
publish = false

[dependencies]
anyhow = "1"
derive_more = "0.99"
flutter_rust_bridge = "1"
