[package]
name = "servoshell"
version = "0.1.0"
edition = "2021"
publish = false

[dependencies]
egui = { version = "0.33", default-features = false }
euclid = "0.22"
log = "0.4"
objc2 = "0.6"
objc2-app-kit = "0.3"
objc2-foundation = "0.3"
raw-window-handle = "0.6"
tokio = { version = "1", features = ["rt-multi-thread", "time"] }
