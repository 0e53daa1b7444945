[package]
name = "active_win_pos_rs"
version = "0.1.0"
edition = "2021"
publish = false

[dependencies]
serde = { version = "1", features = ["derive"] }
serde_json = "1"
xcb = "1"
windows = { version = "0.48", features = ["Win32_Foundation", "Win32_Storage_FileSystem", "Win32_System_Threading", "Win32_UI_WindowsAndMessaging"] }
core-foundation = "0.9"
core-graphics = "0.22"
objc = "0.2"
