[package]
name = "gpui_ios"
version = "0.1.0"
edition = "2021"
publish = false

[dependencies]
anyhow = "=1.0.104"
async-task = "=4.7.1"
cocoa = { version = "=0.26.1", default-features = false }
core-foundation = { version = "=0.10.1", default-features = false }
core-graphics = { version = "=0.24.0", default-features = false }
core-text = { version = "=21.0.0", default-features = false }
dispatch2 = { version = "=0.3.1", default-features = false, features = ["std"] }
futures = "=0.3.34"
objc = "=0.2.7"
parking_lot = "=0.12.5"
raw-window-handle = "=0.6.2"
smallvec = "=1.16.4"
uuid = { version = "=1.29.0", features = ["v4"] }
