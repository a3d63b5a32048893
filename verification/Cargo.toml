[package]
name = "spotlight_window"
version = "0.1.0"
edition = "2021"
publish = false

[dependencies]
raw-window-handle = "0.5"
windows = { version = "0.48", features = ["Win32_Foundation", "Win32_UI_WindowsAndMessaging"] }
